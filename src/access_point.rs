//! Access-point records as a completed scan yields them: the name decoded
//! from the raw bytes the device reports, and the frequency, with its display
//! in GHz.
use vstd::prelude::*;
use vstd::slice::slice_to_vec;
use vstd::string::StringExecFns;
use vstd::utf8::{decode_utf8, encode_utf8, valid_utf8};
use vstd::utf8::{encode_utf8_decode_utf8, encode_utf8_valid_utf8};

verus! {

/// What `String::from_utf8_lossy` makes of a byte sequence.
pub uninterp spec fn lossy_text(bytes: Seq<u8>) -> Seq<char>;

/// Relies on `String::from_utf8_lossy`: it never fails, and bytes that are
/// valid UTF-8 are decoded as they stand (invalid sequences become U+FFFD).
#[verifier::external_body]
fn decode_lossy(bytes: &[u8]) -> (r: String)
    ensures
        r@ == lossy_text(bytes@),
        valid_utf8(bytes@) ==> r@ == decode_utf8(bytes@),
{
    String::from_utf8_lossy(bytes).into_owned()
}

/// The text shown for a name given as raw bytes.
pub open spec fn name_text(bytes: Seq<u8>) -> Seq<char> {
    if valid_utf8(bytes) {
        decode_utf8(bytes)
    } else {
        lossy_text(bytes)
    }
}

/// Decodes a name from raw bytes. Malformed bytes never make it fail: they
/// come out as replacement characters.
pub fn decode_name(bytes: &[u8]) -> (r: String)
    ensures
        r@ == name_text(bytes@),
{
    decode_lossy(bytes)
}

/// The UTF-8 bytes of a name, as the device reports names.
pub fn encode_name(name: &str) -> (r: Vec<u8>)
    ensures
        r@ == encode_utf8(name@),
{
    slice_to_vec(name.as_bytes())
}

/// Any text, encoded to bytes and decoded back, is the text it was.
pub proof fn lemma_name_round_trip(text: Seq<char>)
    ensures
        name_text(encode_utf8(text)) == text,
{
    encode_utf8_valid_utf8(text);
    encode_utf8_decode_utf8(text);
}

/// The text of one decimal digit.
pub open spec fn digit_text(d: nat) -> Seq<char> {
    if d == 0 {
        seq!['0']
    } else if d == 1 {
        seq!['1']
    } else if d == 2 {
        seq!['2']
    } else if d == 3 {
        seq!['3']
    } else if d == 4 {
        seq!['4']
    } else if d == 5 {
        seq!['5']
    } else if d == 6 {
        seq!['6']
    } else if d == 7 {
        seq!['7']
    } else if d == 8 {
        seq!['8']
    } else {
        seq!['9']
    }
}

/// `n` written in decimal, without leading zeros.
pub open spec fn decimal(n: nat) -> Seq<char>
    decreases n,
{
    if n < 10 {
        digit_text(n)
    } else {
        decimal(n / 10) + digit_text(n % 10)
    }
}

/// A frequency, in kHz, in tenths of a GHz, rounded half up.
pub open spec fn tenths_of_ghz(frequency: u32) -> nat {
    ((frequency + 50000) / 100000) as nat
}

/// A frequency shown in GHz with one decimal place.
pub open spec fn ghz_text(frequency: u32) -> Seq<char> {
    decimal(tenths_of_ghz(frequency) / 10) + seq!['.'] + digit_text(tenths_of_ghz(frequency) % 10)
}

fn digit_str(d: u32) -> (r: &'static str)
    requires
        d < 10,
    ensures
        r@ == digit_text(d as nat),
{
    if d == 0 {
        proof { reveal_strlit("0"); }
        "0"
    } else if d == 1 {
        proof { reveal_strlit("1"); }
        "1"
    } else if d == 2 {
        proof { reveal_strlit("2"); }
        "2"
    } else if d == 3 {
        proof { reveal_strlit("3"); }
        "3"
    } else if d == 4 {
        proof { reveal_strlit("4"); }
        "4"
    } else if d == 5 {
        proof { reveal_strlit("5"); }
        "5"
    } else if d == 6 {
        proof { reveal_strlit("6"); }
        "6"
    } else if d == 7 {
        proof { reveal_strlit("7"); }
        "7"
    } else if d == 8 {
        proof { reveal_strlit("8"); }
        "8"
    } else {
        proof { reveal_strlit("9"); }
        "9"
    }
}

/// Appends `n` in decimal to `out`.
fn push_decimal(out: &mut String, n: u32)
    ensures
        final(out)@ == old(out)@ + decimal(n as nat),
    decreases n,
{
    if n >= 10 {
        push_decimal(out, n / 10);
    }
    out.append(digit_str(n % 10));
    proof {
        if n >= 10 {
            assert(final(out)@ =~= old(out)@ + decimal(n as nat));
        }
    }
}

/// A frequency, in kHz, in tenths of a GHz, rounded half up.
pub fn frequency_tenths_ghz(frequency: u32) -> (r: u32)
    ensures
        r == tenths_of_ghz(frequency),
{
    ((frequency as u64 + 50000) / 100000) as u32
}

/// A frequency, in kHz, as GHz with one decimal place: 2412000 shows as
/// `2.4`.
pub fn format_frequency(frequency: u32) -> (r: String)
    ensures
        r@ == ghz_text(frequency),
{
    let tenths = frequency_tenths_ghz(frequency);
    let mut out = String::new();
    push_decimal(&mut out, tenths / 10);
    proof { reveal_strlit("."); }
    out.append(".");
    out.append(digit_str(tenths % 10));
    out
}

/// One access point: its name and its frequency in kHz.
pub struct AccessPointRecord {
    pub name: String,
    pub frequency: u32,
}

impl AccessPointRecord {
    /// The frequency in tenths of a GHz, rounded half up.
    pub fn frequency_tenths_ghz(&self) -> (r: u32)
        ensures
            r == tenths_of_ghz(self.frequency),
    {
        frequency_tenths_ghz(self.frequency)
    }

    /// The frequency as GHz with one decimal place.
    pub fn frequency_text(&self) -> (r: String)
        ensures
            r@ == ghz_text(self.frequency),
    {
        format_frequency(self.frequency)
    }
}

/// The records of the access points that a scan found, from their raw names
/// and frequencies: one for each, in the order of the scan's answer. Equal
/// names are kept apart, since each belongs to its own radio.
pub fn read_access_points(names: &Vec<Vec<u8>>, frequencies: &Vec<u32>) -> (r: Vec<
    AccessPointRecord,
>)
    requires
        names.len() == frequencies.len(),
    ensures
        r.len() == names.len(),
        forall|i: int|
            0 <= i < r.len() ==> {
                &&& (#[trigger] r[i]).name@ == name_text(names[i]@)
                &&& r[i].frequency == frequencies[i]
            },
{
    let mut out: Vec<AccessPointRecord> = Vec::new();
    let mut i: usize = 0;
    while i < names.len()
        invariant
            i <= names.len(),
            names.len() == frequencies.len(),
            out.len() == i,
            forall|j: int|
                0 <= j < i ==> {
                    &&& (#[trigger] out[j]).name@ == name_text(names[j]@)
                    &&& out[j].frequency == frequencies[j]
                },
        decreases names.len() - i,
    {
        let name = decode_name(names[i].as_slice());
        out.push(AccessPointRecord { name, frequency: frequencies[i] });
        i = i + 1;
    }
    out
}

/// The names of `records`, in their order, as the selector lists them.
pub fn record_names(records: &Vec<AccessPointRecord>) -> (r: Vec<String>)
    ensures
        r.len() == records.len(),
        forall|i: int| 0 <= i < r.len() ==> (#[trigger] r[i])@ == records[i].name@,
{
    let mut out: Vec<String> = Vec::new();
    let mut i: usize = 0;
    while i < records.len()
        invariant
            i <= records.len(),
            out.len() == i,
            forall|j: int| 0 <= j < i ==> (#[trigger] out[j])@ == records[j].name@,
        decreases records.len() - i,
    {
        out.push(records[i].name.clone());
        i = i + 1;
    }
    out
}

} // verus!
