use vstd::prelude::*;
use vstd::string::StringExecFns;

verus! {

/// `num::Complex`, carried through the streamers as an opaque sample: the
/// library moves samples but never reads them.
#[verifier::external_type_specification]
#[verifier::external_body]
#[verifier::reject_recursive_types(T)]
pub struct ExComplex<T>(num::Complex<T>);

/// The element type of a streamer's complex samples.
#[derive(Clone, Copy, Debug, PartialEq, Eq, Structural)]
pub enum SampleType {
    /// 16-bit integer components.
    I16,
    /// 32-bit float components.
    F32,
    /// 64-bit float components.
    F64,
}

/// The host-side (cpu) sample format that the native library is told about.
pub open spec fn cpu_format_of(t: SampleType) -> Seq<char> {
    match t {
        SampleType::I16 => "sc16"@,
        SampleType::F32 => "fc32"@,
        SampleType::F64 => "fc64"@,
    }
}

/// The over-the-wire format: the same for every element type.
pub open spec fn otw_format_of(t: SampleType) -> Seq<char> {
    "sc16"@
}

impl SampleType {
    /// The (cpu, over-the-wire) format pair of this element type. For 64-bit
    /// floats the cpu format is "fc64" in both directions.
    pub fn formats(self) -> (r: (&'static str, &'static str))
        ensures
            r.0@ == cpu_format_of(self),
            r.1@ == otw_format_of(self),
    {
        match self {
            SampleType::I16 => ("sc16", "sc16"),
            SampleType::F32 => ("fc32", "sc16"),
            SampleType::F64 => ("fc64", "sc16"),
        }
    }
}

pub open spec fn digit_char(d: nat) -> char {
    seq!['0', '1', '2', '3', '4', '5', '6', '7', '8', '9'][d as int]
}

/// A number written in decimal, without sign or leading zeros.
pub open spec fn decimal_text(n: nat) -> Seq<char>
    decreases n,
{
    if n < 10 {
        seq![digit_char(n)]
    } else {
        decimal_text(n / 10) + seq![digit_char(n % 10)]
    }
}

/// The one-character text of the digit `d`.
fn digit_str(d: usize) -> (r: &'static str)
    requires
        d < 10,
    ensures
        r@ == seq![digit_char(d as nat)],
{
    proof {
        reveal_strlit("0");
        reveal_strlit("1");
        reveal_strlit("2");
        reveal_strlit("3");
        reveal_strlit("4");
        reveal_strlit("5");
        reveal_strlit("6");
        reveal_strlit("7");
        reveal_strlit("8");
        reveal_strlit("9");
    }
    let r = match d {
        0 => "0",
        1 => "1",
        2 => "2",
        3 => "3",
        4 => "4",
        5 => "5",
        6 => "6",
        7 => "7",
        8 => "8",
        _ => "9",
    };
    assert(r@ =~= seq![digit_char(d as nat)]);
    r
}

/// Appends `n` in decimal to `out`.
fn push_decimal(out: &mut String, n: usize)
    ensures
        final(out)@ == old(out)@ + decimal_text(n as nat),
    decreases n,
{
    if n >= 10 {
        push_decimal(out, n / 10);
    }
    out.append(digit_str(n % 10));
    proof {
        if n >= 10 {
            vstd::seq_lib::lemma_concat_associative(
                old(out)@,
                decimal_text((n / 10) as nat),
                seq![digit_char((n % 10) as nat)],
            );
        }
    }
}

/// The label followed by `n` in decimal.
pub fn labelled_decimal(label: &str, n: usize) -> (r: String)
    ensures
        r@ == label@ + decimal_text(n as nat),
{
    let mut out = label.to_owned();
    push_decimal(&mut out, n);
    out
}

} // verus!
