use vstd::prelude::*;

verus! {

/// One signed decimal magnitude, in the exact textual shape the payload
/// carries: an optional minus sign, the integer part, a point, and at least
/// one fraction digit.  The unverified shell renders each floating-point
/// sensor component into this shape; the session core works on the digits
/// alone.
#[derive(Clone, Debug)]
pub struct Scalar {
    /// True when the magnitude is negative (a negative zero keeps its sign).
    pub neg: bool,
    /// The digits before the decimal point, as a number.
    pub int_part: u32,
    /// The decimal digits after the point, most significant first.
    pub frac: Vec<u8>,
}

impl Scalar {
    /// A well-formed scalar has at least one fraction digit, and every
    /// fraction entry is a single decimal digit.
    pub open spec fn wf(self) -> bool {
        &&& self.frac@.len() >= 1
        &&& forall|i: int| 0 <= i < self.frac@.len() ==> self.frac@[i] < 10
    }

    /// Builds a scalar from its parts, accepting exactly the well-formed
    /// ones: at least one fraction digit, each below ten.
    pub fn new(neg: bool, int_part: u32, frac: Vec<u8>) -> (r: Option<Scalar>)
        ensures
            match r {
                Some(s) => {
                    &&& s.wf()
                    &&& s.neg == neg
                    &&& s.int_part == int_part
                    &&& s.frac@ == frac@
                },
                None => !(Scalar { neg, int_part, frac }).wf(),
            },
    {
        if frac.len() == 0 {
            return None;
        }
        let mut i: usize = 0;
        while i < frac.len()
            invariant
                i <= frac.len(),
                forall|j: int| 0 <= j < i ==> frac@[j] < 10,
            decreases frac.len() - i,
        {
            if frac[i] >= 10 {
                return None;
            }
            i += 1;
        }
        Some(Scalar { neg, int_part, frac })
    }
}

/// An acceleration or angular-rate reading: one scalar per axis.
#[derive(Clone, Debug)]
pub struct Triple {
    pub x: Scalar,
    pub y: Scalar,
    pub z: Scalar,
}

impl Triple {
    pub open spec fn wf(self) -> bool {
        self.x.wf() && self.y.wf() && self.z.wf()
    }

    pub fn new(x: Scalar, y: Scalar, z: Scalar) -> (r: Triple)
        requires
            x.wf() && y.wf() && z.wf(),
        ensures
            r.wf() && r.x == x && r.y == y && r.z == z,
    {
        Triple { x, y, z }
    }
}

/// One telemetry sample: a fresh angular-rate triple and a fresh
/// acceleration triple, produced together on each cycle iteration.
#[derive(Clone, Debug)]
pub struct Sample {
    pub gyro: Triple,
    pub acc: Triple,
}

impl Sample {
    pub open spec fn wf(self) -> bool {
        self.gyro.wf() && self.acc.wf()
    }

    pub fn new(gyro: Triple, acc: Triple) -> (r: Sample)
        requires
            gyro.wf() && acc.wf(),
        ensures
            r.wf() && r.gyro == gyro && r.acc == acc,
    {
        Sample { gyro, acc }
    }
}

/// Whether every fraction entry of `s` is a single decimal digit and at
/// least one is present.
pub fn scalar_wf(s: &Scalar) -> (r: bool)
    ensures
        r == s.wf(),
{
    if s.frac.len() == 0 {
        return false;
    }
    let mut i: usize = 0;
    while i < s.frac.len()
        invariant
            i <= s.frac.len(),
            forall|j: int| 0 <= j < i ==> s.frac@[j] < 10,
        decreases s.frac.len() - i,
    {
        if s.frac[i] >= 10 {
            return false;
        }
        i += 1;
    }
    true
}

/// Whether all three scalars of `t` are well formed.
pub fn triple_wf(t: &Triple) -> (r: bool)
    ensures
        r == t.wf(),
{
    scalar_wf(&t.x) && scalar_wf(&t.y) && scalar_wf(&t.z)
}

/// The decimal digits of `n`, most significant first, as ASCII bytes.
pub open spec fn dec_bytes(n: nat) -> Seq<u8>
    decreases n,
{
    if n < 10 {
        seq![(48 + n) as u8]
    } else {
        dec_bytes(n / 10).push((48 + n % 10) as u8)
    }
}

/// Fraction digits as ASCII bytes, in order.
pub open spec fn digit_bytes(ds: Seq<u8>) -> Seq<u8> {
    ds.map_values(|d: u8| (48 + d) as u8)
}

/// The textual form of one scalar: sign, integer part, point, fraction.
pub open spec fn scalar_bytes(s: Scalar) -> Seq<u8> {
    (if s.neg {
        seq![45u8]
    } else {
        Seq::<u8>::empty()
    }) + dec_bytes(s.int_part as nat) + seq![46u8] + digit_bytes(s.frac@)
}

/// The textual form of one triple: `(x, y, z)`.
pub open spec fn triple_bytes(t: Triple) -> Seq<u8> {
    seq![40u8] + scalar_bytes(t.x) + seq![44u8, 32u8] + scalar_bytes(t.y) + seq![44u8, 32u8]
        + scalar_bytes(t.z) + seq![41u8]
}

/// The full payload: `{"gyro": G, "acc": A}`, gyro first, acceleration
/// second, both in triple form.
pub open spec fn sample_bytes(s: Sample) -> Seq<u8> {
    // {"gyro":
    seq![123u8, 34u8, 103u8, 121u8, 114u8, 111u8, 34u8, 58u8, 32u8] + triple_bytes(s.gyro)
        // , "acc":
        + seq![44u8, 32u8, 34u8, 97u8, 99u8, 99u8, 34u8, 58u8, 32u8] + triple_bytes(s.acc)
        // }
        + seq![125u8]
}

fn push_dec(out: &mut Vec<u8>, n: u32)
    ensures
        final(out)@ == old(out)@ + dec_bytes(n as nat),
    decreases n,
{
    if n < 10 {
        out.push((48 + n) as u8);
        assert(final(out)@ =~= old(out)@ + dec_bytes(n as nat));
    } else {
        assert(n / 10 < n) by (nonlinear_arith)
            requires
                n >= 10,
        ;
        push_dec(out, n / 10);
        out.push((48 + (n % 10)) as u8);
        assert(final(out)@ =~= old(out)@ + dec_bytes(n as nat));
    }
}

fn push_scalar(out: &mut Vec<u8>, s: &Scalar)
    requires
        s.wf(),
    ensures
        final(out)@ == old(out)@ + scalar_bytes(*s),
{
    if s.neg {
        out.push(45);
    }
    push_dec(out, s.int_part);
    out.push(46);
    let ghost head: Seq<u8> = old(out)@ + (if s.neg {
        seq![45u8]
    } else {
        Seq::<u8>::empty()
    }) + dec_bytes(s.int_part as nat) + seq![46u8];
    assert(out@ =~= head + digit_bytes(s.frac@.take(0)));
    let mut i: usize = 0;
    while i < s.frac.len()
        invariant
            s.wf(),
            i <= s.frac.len(),
            out@ == head + digit_bytes(s.frac@.take(i as int)),
        decreases s.frac.len() - i,
    {
        out.push(48 + s.frac[i]);
        proof {
            assert(digit_bytes(s.frac@.take(i + 1)) =~= digit_bytes(s.frac@.take(i as int)).push(
                (48 + s.frac@[i as int]) as u8,
            ));
            assert(out@ =~= head + digit_bytes(s.frac@.take(i + 1)));
        }
        i += 1;
    }
    proof {
        assert(s.frac@.take(s.frac@.len() as int) =~= s.frac@);
        assert(out@ =~= old(out)@ + scalar_bytes(*s));
    }
}

fn push_triple(out: &mut Vec<u8>, t: &Triple)
    requires
        t.wf(),
    ensures
        final(out)@ == old(out)@ + triple_bytes(*t),
{
    out.push(40);
    push_scalar(out, &t.x);
    out.push(44);
    out.push(32);
    push_scalar(out, &t.y);
    out.push(44);
    out.push(32);
    push_scalar(out, &t.z);
    out.push(41);
    assert(final(out)@ =~= old(out)@ + triple_bytes(*t));
}

/// Serializes a sample into the exact payload the transport publishes:
/// `{"gyro": (gx, gy, gz), "acc": (ax, ay, az)}` as UTF-8 bytes, field order
/// and punctuation fixed.
pub fn serialize_sample(s: &Sample) -> (r: Vec<u8>)
    requires
        s.wf(),
    ensures
        r@ == sample_bytes(*s),
{
    let mut out: Vec<u8> = Vec::new();
    out.push(123);
    out.push(34);
    out.push(103);
    out.push(121);
    out.push(114);
    out.push(111);
    out.push(34);
    out.push(58);
    out.push(32);
    assert(out@ =~= seq![123u8, 34u8, 103u8, 121u8, 114u8, 111u8, 34u8, 58u8, 32u8]);
    push_triple(&mut out, &s.gyro);
    out.push(44);
    out.push(32);
    out.push(34);
    out.push(97);
    out.push(99);
    out.push(99);
    out.push(34);
    out.push(58);
    out.push(32);
    push_triple(&mut out, &s.acc);
    out.push(125);
    assert(out@ =~= sample_bytes(*s));
    out
}

} // verus!
