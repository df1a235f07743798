//! The Goldilocks modulus `p = 2^64 - 2^32 + 1` is prime, so the field has no zero divisors.
//!
//! The proof follows Pocklington's criterion with the factor `2^32` of `p - 1` and the witness
//! 7: `7^(p-1) = 1` and `7^((p-1)/2) = -1` modulo `p`. If `p` had a proper divisor, it would have
//! one, `q`, with `q^2 <= p`, so `q <= 2^32`; modulo `q` the powers of 7 repeat within `q - 1`
//! steps, which yields an exponent `e < 2^32` that divides `p - 1` with `7^e = 1`, and no such
//! exponent is compatible with `7^((p-1)/2) = -1`.

use vstd::arithmetic::div_mod::*;
use vstd::arithmetic::power::*;
use vstd::prelude::*;
use vstd::relations::injective_on;
use vstd::set_lib::*;

use crate::field::P;

verus! {

/// `7^(2e) mod p` and `7^(2e+1) mod p` from `7^e mod p`.
proof fn lemma_pow_step(e: nat, c: int)
    requires
        pow(7, e) % (P as int) == c,
    ensures
        pow(7, 2 * e) % (P as int) == (c * c) % (P as int),
        pow(7, 2 * e + 1) % (P as int) == ((c * c) % (P as int) * 7) % (P as int),
{
    let m = P as int;
    lemma_pow_adds(7, e, e);
    lemma_pow_adds(7, 2 * e, 1);
    lemma_pow1(7);
    lemma_mul_mod_noop(pow(7, e), pow(7, e), m);
    lemma_mul_mod_noop(pow(7, 2 * e), 7, m);
    lemma_small_mod(7, P as nat);
    assert(pow(7, e) * pow(7, e) == pow(7, 2 * e));
}

/// `7^(p-1) = 1` and `7^((p-1)/2) = p - 1` modulo `p`.
pub proof fn lemma_seven_powers()
    ensures
        pow(7, (P - 1) as nat) % (P as int) == 1,
        pow(7, ((P - 1) / 2) as nat) % (P as int) == P - 1,
{
    lemma_pow1(7);
    lemma_small_mod(7, P as nat);
    lemma_pow_step(1, 7);
    assert(((7int * 7int) % (P as int) * 7) % (P as int) == 343);
    lemma_pow_step(3, 343);
    assert(((343int * 343int) % (P as int) * 7) % (P as int) == 823543);
    lemma_pow_step(7, 823543);
    assert(((823543int * 823543int) % (P as int) * 7) % (P as int) == 4747561509943);
    lemma_pow_step(15, 4747561509943);
    assert(((4747561509943int * 4747561509943int) % (P as int) * 7) % (P as int) == 11074261478625843323);
    lemma_pow_step(31, 11074261478625843323);
    assert(((11074261478625843323int * 11074261478625843323int) % (P as int) * 7) % (P as int) == 12148266161370408270);
    lemma_pow_step(63, 12148266161370408270);
    assert(((12148266161370408270int * 12148266161370408270int) % (P as int) * 7) % (P as int) == 7007601668316978083);
    lemma_pow_step(127, 7007601668316978083);
    assert(((7007601668316978083int * 7007601668316978083int) % (P as int) * 7) % (P as int) == 8125271997680889877);
    lemma_pow_step(255, 8125271997680889877);
    assert(((8125271997680889877int * 8125271997680889877int) % (P as int) * 7) % (P as int) == 2624486902016877951);
    lemma_pow_step(511, 2624486902016877951);
    assert(((2624486902016877951int * 2624486902016877951int) % (P as int) * 7) % (P as int) == 8253119735826302939);
    lemma_pow_step(1023, 8253119735826302939);
    assert(((8253119735826302939int * 8253119735826302939int) % (P as int) * 7) % (P as int) == 3543566522599720475);
    lemma_pow_step(2047, 3543566522599720475);
    assert(((3543566522599720475int * 3543566522599720475int) % (P as int) * 7) % (P as int) == 11981551684735969599);
    lemma_pow_step(4095, 11981551684735969599);
    assert(((11981551684735969599int * 11981551684735969599int) % (P as int) * 7) % (P as int) == 10062120588441922115);
    lemma_pow_step(8191, 10062120588441922115);
    assert(((10062120588441922115int * 10062120588441922115int) % (P as int) * 7) % (P as int) == 10485806445487905393);
    lemma_pow_step(16383, 10485806445487905393);
    assert(((10485806445487905393int * 10485806445487905393int) % (P as int) * 7) % (P as int) == 4139485063330164956);
    lemma_pow_step(32767, 4139485063330164956);
    assert(((4139485063330164956int * 4139485063330164956int) % (P as int) * 7) % (P as int) == 12134830135347446949);
    lemma_pow_step(65535, 12134830135347446949);
    assert(((12134830135347446949int * 12134830135347446949int) % (P as int) * 7) % (P as int) == 4326791766630348883);
    lemma_pow_step(131071, 4326791766630348883);
    assert(((4326791766630348883int * 4326791766630348883int) % (P as int) * 7) % (P as int) == 206761543466863628);
    lemma_pow_step(262143, 206761543466863628);
    assert(((206761543466863628int * 206761543466863628int) % (P as int) * 7) % (P as int) == 10086585273483141421);
    lemma_pow_step(524287, 10086585273483141421);
    assert(((10086585273483141421int * 10086585273483141421int) % (P as int) * 7) % (P as int) == 1855730417186139594);
    lemma_pow_step(1048575, 1855730417186139594);
    assert(((1855730417186139594int * 1855730417186139594int) % (P as int) * 7) % (P as int) == 7626447102712710903);
    lemma_pow_step(2097151, 7626447102712710903);
    assert(((7626447102712710903int * 7626447102712710903int) % (P as int) * 7) % (P as int) == 7790920094560990216);
    lemma_pow_step(4194303, 7790920094560990216);
    assert(((7790920094560990216int * 7790920094560990216int) % (P as int) * 7) % (P as int) == 5901922255895126089);
    lemma_pow_step(8388607, 5901922255895126089);
    assert(((5901922255895126089int * 5901922255895126089int) % (P as int) * 7) % (P as int) == 8935258787870022506);
    lemma_pow_step(16777215, 8935258787870022506);
    assert(((8935258787870022506int * 8935258787870022506int) % (P as int) * 7) % (P as int) == 13093775858033092690);
    lemma_pow_step(33554431, 13093775858033092690);
    assert(((13093775858033092690int * 13093775858033092690int) % (P as int) * 7) % (P as int) == 11243737384857129666);
    lemma_pow_step(67108863, 11243737384857129666);
    assert(((11243737384857129666int * 11243737384857129666int) % (P as int) * 7) % (P as int) == 2063617152444052883);
    lemma_pow_step(134217727, 2063617152444052883);
    assert(((2063617152444052883int * 2063617152444052883int) % (P as int) * 7) % (P as int) == 13064848991504552222);
    lemma_pow_step(268435455, 13064848991504552222);
    assert(((13064848991504552222int * 13064848991504552222int) % (P as int) * 7) % (P as int) == 16593403251012455084);
    lemma_pow_step(536870911, 16593403251012455084);
    assert(((16593403251012455084int * 16593403251012455084int) % (P as int) * 7) % (P as int) == 5859133952941131217);
    lemma_pow_step(1073741823, 5859133952941131217);
    assert(((5859133952941131217int * 5859133952941131217int) % (P as int) * 7) % (P as int) == 15659105665374529263);
    lemma_pow_step(2147483647, 15659105665374529263);
    assert(((15659105665374529263int * 15659105665374529263int) % (P as int) * 7) % (P as int) == 1753635133440165772);
    lemma_pow_step(4294967295, 1753635133440165772);
    assert((1753635133440165772int * 1753635133440165772int) % (P as int) == 4614640910117430873);
    lemma_pow_step(8589934590, 4614640910117430873);
    assert((4614640910117430873int * 4614640910117430873int) % (P as int) == 9123114210336311365);
    lemma_pow_step(17179869180, 9123114210336311365);
    assert((9123114210336311365int * 9123114210336311365int) % (P as int) == 16116352524544190054);
    lemma_pow_step(34359738360, 16116352524544190054);
    assert((16116352524544190054int * 16116352524544190054int) % (P as int) == 6414415596519834757);
    lemma_pow_step(68719476720, 6414415596519834757);
    assert((6414415596519834757int * 6414415596519834757int) % (P as int) == 1213594585890690845);
    lemma_pow_step(137438953440, 1213594585890690845);
    assert((1213594585890690845int * 1213594585890690845int) % (P as int) == 17096174751763063430);
    lemma_pow_step(274877906880, 17096174751763063430);
    assert((17096174751763063430int * 17096174751763063430int) % (P as int) == 5456943929260765144);
    lemma_pow_step(549755813760, 5456943929260765144);
    assert((5456943929260765144int * 5456943929260765144int) % (P as int) == 9713644485405565297);
    lemma_pow_step(1099511627520, 9713644485405565297);
    assert((9713644485405565297int * 9713644485405565297int) % (P as int) == 16905767614792059275);
    lemma_pow_step(2199023255040, 16905767614792059275);
    assert((16905767614792059275int * 16905767614792059275int) % (P as int) == 5416168637041100469);
    lemma_pow_step(4398046510080, 5416168637041100469);
    assert((5416168637041100469int * 5416168637041100469int) % (P as int) == 17654865857378133588);
    lemma_pow_step(8796093020160, 17654865857378133588);
    assert((17654865857378133588int * 17654865857378133588int) % (P as int) == 3511170319078647661);
    lemma_pow_step(17592186040320, 3511170319078647661);
    assert((3511170319078647661int * 3511170319078647661int) % (P as int) == 18146160046829613826);
    lemma_pow_step(35184372080640, 18146160046829613826);
    assert((18146160046829613826int * 18146160046829613826int) % (P as int) == 9306717745644682924);
    lemma_pow_step(70368744161280, 9306717745644682924);
    assert((9306717745644682924int * 9306717745644682924int) % (P as int) == 12380578893860276750);
    lemma_pow_step(140737488322560, 12380578893860276750);
    assert((12380578893860276750int * 12380578893860276750int) % (P as int) == 6115771955107415310);
    lemma_pow_step(281474976645120, 6115771955107415310);
    assert((6115771955107415310int * 6115771955107415310int) % (P as int) == 17776499369601055404);
    lemma_pow_step(562949953290240, 17776499369601055404);
    assert((17776499369601055404int * 17776499369601055404int) % (P as int) == 16207902636198568418);
    lemma_pow_step(1125899906580480, 16207902636198568418);
    assert((16207902636198568418int * 16207902636198568418int) % (P as int) == 1532612707718625687);
    lemma_pow_step(2251799813160960, 1532612707718625687);
    assert((1532612707718625687int * 1532612707718625687int) % (P as int) == 17492915097719143606);
    lemma_pow_step(4503599626321920, 17492915097719143606);
    assert((17492915097719143606int * 17492915097719143606int) % (P as int) == 455906449640507599);
    lemma_pow_step(9007199252643840, 455906449640507599);
    assert((455906449640507599int * 455906449640507599int) % (P as int) == 11353340290879379826);
    lemma_pow_step(18014398505287680, 11353340290879379826);
    assert((11353340290879379826int * 11353340290879379826int) % (P as int) == 1803076106186727246);
    lemma_pow_step(36028797010575360, 1803076106186727246);
    assert((1803076106186727246int * 1803076106186727246int) % (P as int) == 13797081185216407910);
    lemma_pow_step(72057594021150720, 13797081185216407910);
    assert((13797081185216407910int * 13797081185216407910int) % (P as int) == 17870292113338400769);
    lemma_pow_step(144115188042301440, 17870292113338400769);
    assert((17870292113338400769int * 17870292113338400769int) % (P as int) == 549755813888);
    lemma_pow_step(288230376084602880, 549755813888);
    assert((549755813888int * 549755813888int) % (P as int) == 70368744161280);
    lemma_pow_step(576460752169205760, 70368744161280);
    assert((70368744161280int * 70368744161280int) % (P as int) == 17293822564807737345);
    lemma_pow_step(1152921504338411520, 17293822564807737345);
    assert((17293822564807737345int * 17293822564807737345int) % (P as int) == 18446744069397807105);
    lemma_pow_step(2305843008676823040, 18446744069397807105);
    assert((18446744069397807105int * 18446744069397807105int) % (P as int) == 281474976710656);
    lemma_pow_step(4611686017353646080, 281474976710656);
    assert((281474976710656int * 281474976710656int) % (P as int) == 18446744069414584320);
    lemma_pow_step(9223372034707292160, 18446744069414584320);
    assert((18446744069414584320int * 18446744069414584320int) % (P as int) == 1);
}


/// If `c * b` is a multiple of `p` for some `1 <= c < p` and `0 < b < p`, then `p` has a divisor
/// strictly between 1 and `p`.
proof fn lemma_zero_product_divisor(c: int, b: int)
    requires
        1 <= c < P,
        0 < b < P,
        (c * b) % (P as int) == 0,
    ensures
        exists|u: int| 1 < u < P && #[trigger] ((P as int) % u) == 0,
    decreases c,
{
    let m = P as int;
    let r = m % c;
    if r == 0 {
        if c == 1 {
            assert(c * b == b) by (nonlinear_arith)
                requires
                    c == 1,
            ;
            lemma_small_mod(b as nat, P as nat);
            assert(false);
        }
        assert(1 < c < P && m % c == 0);
    } else {
        let q = m / c;
        lemma_fundamental_div_mod(m, c);
        lemma_fundamental_div_mod(c * b, m);
        let t = (c * b) / m;
        assert(c * b == m * t);
        assert(r * b == m * (b - q * t)) by (nonlinear_arith)
            requires
                m == c * q + r,
                c * b == m * t,
        ;
        lemma_mod_multiples_basic(b - q * t, m);
        assert((m * (b - q * t)) % m == 0) by {
            assert(m * (b - q * t) == (b - q * t) * m) by (nonlinear_arith);
        }
        lemma_mod_bound(m, c);
        lemma_zero_product_divisor(r, b);
    }
}

/// A proper divisor `u` of `p` gives one, `q`, with `q * q <= p`, so `q <= 2^32`.
proof fn lemma_small_divisor(u: int) -> (q: int)
    requires
        1 < u < P,
        (P as int) % u == 0,
    ensures
        1 < q <= 0x1_0000_0000,
        (P as int) % q == 0,
{
    let m = P as int;
    lemma_fundamental_div_mod(m, u);
    let w = m / u;
    assert(m == u * w);
    assert(w > 1) by (nonlinear_arith)
        requires
            m == u * w,
            1 < u < m,
    ;
    assert(u * w == w * u) by (nonlinear_arith);
    let q = if u <= w { u } else { w };
    let o = if u <= w { w } else { u };
    assert(m == q * o);
    assert(q <= 0x1_0000_0000) by (nonlinear_arith)
        requires
            m == q * o,
            q <= o,
            m == 18446744069414584321int,
            q > 0,
    ;
    lemma_mod_multiples_basic(o, q);
    assert((o * q) % q == 0);
    assert(m % q == 0);
    q
}

/// Powers of 7 modulo a divisor `q` of `p`: `7^(p-1) = 1` and `7^((p-1)/2) = q - 1`.
proof fn lemma_seven_powers_mod(q: int)
    requires
        1 < q,
        (P as int) % q == 0,
    ensures
        pow(7, (P - 1) as nat) % q == 1,
        pow(7, ((P - 1) / 2) as nat) % q == q - 1,
{
    let m = P as int;
    lemma_seven_powers();
    lemma_fundamental_div_mod(m, q);
    let w = m / q;
    assert(m == q * w);
    assert(w > 0) by (nonlinear_arith)
        requires
            m == q * w,
            q > 1,
            m > 0,
    ;
    lemma_mod_mod(pow(7, (P - 1) as nat), q, w);
    lemma_mod_mod(pow(7, ((P - 1) / 2) as nat), q, w);
    lemma_small_mod(1, q as nat);
    assert((m - 1) % q == q - 1) by {
        lemma_fundamental_div_mod(m - 1, q);
        lemma_mod_multiples_vanish(w, -1, q);
        assert(m - 1 == q * w + (-1));
        assert(q * w + (-1) == -1 + q * w);
        lemma_mod_multiples_vanish(w - 1, q - 1, q);
        assert(m - 1 == q * (w - 1) + (q - 1)) by (nonlinear_arith)
            requires
                m == q * w,
        ;
        lemma_small_mod((q - 1) as nat, q as nat);
    }
}


/// `7^i` is not a multiple of `q` for `i <= p - 1` when `7^(p-1) = 1` modulo `q`.
proof fn lemma_power_nonzero(q: int, i: nat)
    requires
        1 < q,
        i <= P - 1,
        pow(7, (P - 1) as nat) % q == 1,
    ensures
        pow(7, i) % q != 0,
{
    let n = (P - 1) as nat;
    lemma_pow_adds(7, i, (n - i) as nat);
    lemma_mul_mod_noop_left(pow(7, i), pow(7, (n - i) as nat), q);
    if pow(7, i) % q == 0 {
        assert(0 * pow(7, (n - i) as nat) == 0);
        lemma_small_mod(0, q as nat);
    }
}

/// If `a * d = a` and `a * b = 1` modulo `q`, then `d = 1` modulo `q`.
proof fn lemma_cancel(a: int, b: int, d: int, q: int)
    requires
        q > 1,
        (a * d) % q == a % q,
        (a * b) % q == 1,
    ensures
        d % q == 1,
{
    lemma_mul_mod_noop_left(a * d, b, q);
    lemma_mul_mod_noop_left(a, b, q);
    lemma_mul_mod_noop_left(a * b, d, q);
    assert((a * d) * b == (a * b) * d) by (nonlinear_arith);
    assert(1 * d == d);
}

/// Modulo a divisor `q` of `p`, some power `7^d` with `1 <= d <= q - 1` is 1: the `q` powers
/// `7^0 .. 7^(q-1)` take at most `q - 1` nonzero values, so two of them meet.
proof fn lemma_power_repeats(q: int) -> (d: nat)
    requires
        1 < q,
        q - 1 <= P - 1,
        pow(7, (P - 1) as nat) % q == 1,
    ensures
        1 <= d <= q - 1,
        pow(7, d) % q == 1,
{
    let n = (P - 1) as nat;
    let x = set_int_range(0, q);
    let r = set_int_range(1, q);
    let f = |i: int| pow(7, i as nat) % q;
    let y = x.map(f);
    lemma_int_range(0, q);
    lemma_int_range(1, q);
    assert forall|b: int| y.contains(b) implies r.contains(b) by {
        let a = choose|a: int| x.contains(a) && b == f(a);
        lemma_mod_bound(pow(7, a as nat), q);
        lemma_power_nonzero(q, a as nat);
    }
    if injective_on(f, x) {
        lemma_map_size(x, y, f);
        lemma_len_subset(y, r);
        assert(false);
    }
    let (i, j) = choose|i: int, j: int| x.contains(i) && x.contains(j) && f(i) == f(j) && i != j;
    let (lo, hi) = if i < j { (i, j) } else { (j, i) };
    let d = (hi - lo) as nat;
    assert(f(lo) == f(hi));
    lemma_pow_adds(7, lo as nat, d);
    lemma_pow_adds(7, lo as nat, (n - lo) as nat);
    lemma_cancel(pow(7, lo as nat), pow(7, (n - lo) as nat), pow(7, d), q);
    d
}

/// From a positive exponent `d` with `7^d = 1` modulo `q`, Euclid's algorithm on `p - 1` gives a
/// divisor `e <= d` of `p - 1` with `7^e = 1` modulo `q`.
proof fn lemma_order_divides(q: int, d: nat) -> (e: nat)
    requires
        1 < q,
        1 <= d,
        pow(7, d) % q == 1,
        pow(7, (P - 1) as nat) % q == 1,
    ensures
        1 <= e <= d,
        ((P - 1) as int) % (e as int) == 0,
        pow(7, e) % q == 1,
    decreases d,
{
    let n = (P - 1) as int;
    let r = n % (d as int);
    if r == 0 {
        d
    } else {
        let t = n / (d as int);
        lemma_fundamental_div_mod(n, d as int);
        lemma_mod_bound(n, d as int);
        assert(t >= 0) by {
            lemma_div_pos_is_pos(n, d as int);
        }
        lemma_power_of_one_mod(q, d, t as nat);
        lemma_pow_adds(7, (d * t as nat) as nat, r as nat);
        assert((d * t as nat) as nat + r as nat == n);
        lemma_mul_mod_noop_left(pow(7, (d * t as nat) as nat), pow(7, r as nat), q);
        assert(1 * pow(7, r as nat) == pow(7, r as nat));
        lemma_order_divides(q, r as nat)
    }
}

/// `(7^d)^t = 1` modulo `q` when `7^d = 1` modulo `q`.
proof fn lemma_power_of_one_mod(q: int, d: nat, t: nat)
    requires
        1 < q,
        pow(7, d) % q == 1,
    ensures
        pow(7, d * t) % q == 1,
{
    lemma_pow_multiplies(7, d, t);
    lemma_pow_mod_noop(pow(7, d), t, q);
    lemma1_pow(t);
    lemma_small_mod(1, q as nat);
}

/// `2^k`.
spec fn two_pow(k: nat) -> int
    decreases k,
{
    if k == 0 {
        1
    } else {
        2 * two_pow((k - 1) as nat)
    }
}

/// If `e * c` is a multiple of `2^k` with `c` odd, then `e` is.
proof fn lemma_even_part(e: int, c: int, k: nat)
    requires
        e >= 0,
        c % 2 == 1,
        (e * c) % two_pow(k) == 0,
    ensures
        e % two_pow(k) == 0,
    decreases k,
{
    if k > 0 {
        let m = two_pow((k - 1) as nat);
        assert(m > 0) by {
            lemma_two_pow_positive((k - 1) as nat);
        }
        lemma_fundamental_div_mod(e * c, 2 * m);
        let s0 = (e * c) / (2 * m);
        assert(e * c == 2 * (m * s0)) by (nonlinear_arith)
            requires
                e * c == (2 * m) * s0 + 0,
        ;
        lemma_mul_mod_noop(e, c, 2);
        lemma_mod_multiples_basic(m * s0, 2);
        assert((2 * (m * s0)) % 2 == 0) by {
            assert(2 * (m * s0) == (m * s0) * 2) by (nonlinear_arith);
        }
        assert(e % 2 == 0) by {
            lemma_mod_bound(e, 2);
            if e % 2 == 1 {
                assert((e % 2) * (c % 2) == 1);
                lemma_small_mod(1, 2);
            }
        }
        lemma_fundamental_div_mod(e, 2);
        let h = e / 2;
        assert(e == 2 * h);
        assert(h * c == m * s0) by (nonlinear_arith)
            requires
                e == 2 * h,
                e * c == 2 * (m * s0),
        ;
        lemma_mod_multiples_basic(s0, m);
        assert((m * s0) % m == 0) by {
            assert(m * s0 == s0 * m) by (nonlinear_arith);
        }
        assert(h >= 0);
        lemma_even_part(h, c, (k - 1) as nat);
        lemma_fundamental_div_mod(h, m);
        let g = h / m;
        assert(e == (2 * m) * g) by (nonlinear_arith)
            requires
                e == 2 * h,
                h == m * g + 0,
        ;
        lemma_mod_multiples_basic(g, 2 * m);
        assert(((2 * m) * g) % (2 * m) == 0) by {
            assert((2 * m) * g == g * (2 * m)) by (nonlinear_arith);
        }
    }
}

proof fn lemma_two_pow_positive(k: nat)
    ensures
        two_pow(k) > 0,
    decreases k,
{
    if k > 0 {
        lemma_two_pow_positive((k - 1) as nat);
    }
}

/// `p` has no divisor strictly between 1 and `p`.
proof fn lemma_no_proper_divisor(u: int)
    ensures
        !(1 < u < P && (P as int) % u == 0),
{
    if 1 < u < P && (P as int) % u == 0 {
        let n = (P - 1) as int;
        let q = lemma_small_divisor(u);
        lemma_seven_powers_mod(q);
        assert(q != 2) by {
            if q == 2 {
                assert((P as int) % 2 == 1);
            }
        }
        let d = lemma_power_repeats(q);
        let e = lemma_order_divides(q, d);
        lemma_fundamental_div_mod(n, e as int);
        let t = n / (e as int);
        assert(n == (e as int) * t);
        assert(t >= 0) by {
            lemma_div_pos_is_pos(n, e as int);
        }
        if t % 2 == 0 {
            lemma_fundamental_div_mod(t, 2);
            let t2 = t / 2;
            assert(n / 2 == (e as int) * t2) by (nonlinear_arith)
                requires
                    n == (e as int) * t,
                    t == 2 * t2 + 0,
            ;
            assert(t2 >= 0);
            lemma_power_of_one_mod(q, e, t2 as nat);
            assert((e * t2 as nat) as int == n / 2);
        } else {
            reveal_with_fuel(two_pow, 33);
            assert(two_pow(32) == 0x1_0000_0000);
            assert(n == 0x1_0000_0000 * 0xffff_ffff);
            lemma_mod_multiples_basic(0xffff_ffff, 0x1_0000_0000);
            assert(((e as int) * t) % two_pow(32) == 0);
            lemma_mod_bound(t, 2);
            lemma_even_part(e as int, t, 32);
            lemma_fundamental_div_mod(e as int, two_pow(32));
            assert(e >= 0x1_0000_0000) by (nonlinear_arith)
                requires
                    e >= 1,
                    e == 0x1_0000_0000 * ((e as int) / 0x1_0000_0000) + 0,
            ;
        }
        assert(false);
    }
}

/// `p` is prime: a product of two residues is a multiple of `p` only when one of them is 0.
pub proof fn lemma_no_zero_divisors(a: int, b: int)
    requires
        0 <= a < P,
        0 <= b < P,
        (a * b) % (P as int) == 0,
    ensures
        a == 0 || b == 0,
{
    if a != 0 && b != 0 {
        lemma_zero_product_divisor(a, b);
        let u = choose|u: int| 1 < u < P && #[trigger] ((P as int) % u) == 0;
        lemma_no_proper_divisor(u);
        assert(false);
    }
}

} // verus!
