//! Object keys and public URLs.
//!
//! An object key is a decimal Unix timestamp (seconds), an underscore,
//! and the filename exactly as given, with no other transformation.  A
//! public
//! URL is `https://s3.<region>.amazonaws.com/<bucket>/<key>`.

use vstd::prelude::*;

verus! {

/// The character for one decimal digit.
pub open spec fn spec_digit_char(d: nat) -> char
    recommends
        d < 10,
{
    if d == 0 {
        '0'
    } else if d == 1 {
        '1'
    } else if d == 2 {
        '2'
    } else if d == 3 {
        '3'
    } else if d == 4 {
        '4'
    } else if d == 5 {
        '5'
    } else if d == 6 {
        '6'
    } else if d == 7 {
        '7'
    } else if d == 8 {
        '8'
    } else {
        '9'
    }
}

/// The usual decimal rendering of a natural number: most significant
/// digit first, no leading zeros (a lone zero for 0).
pub open spec fn spec_decimal(n: nat) -> Seq<char>
    decreases n,
{
    if n < 10 {
        seq![spec_digit_char(n)]
    } else {
        spec_decimal(n / 10) + seq![spec_digit_char(n % 10)]
    }
}

/// The generated object key: decimal timestamp, underscore, filename.
pub open spec fn spec_object_key(timestamp: nat, filename: Seq<char>) -> Seq<char> {
    spec_decimal(timestamp) + seq!['_'] + filename
}

/// The public URL of an object.
pub open spec fn spec_public_url(region: Seq<char>, bucket: Seq<char>, key: Seq<char>) -> Seq<
    char,
> {
    "https://s3."@ + region + ".amazonaws.com/"@ + bucket + "/"@ + key
}

/// The source path of a copy request: bucket, slash, key.
pub open spec fn spec_copy_source(bucket: Seq<char>, key: Seq<char>) -> Seq<char> {
    bucket + "/"@ + key
}

/// One decimal digit as a string slice.
fn digit_str(d: u64) -> (r: &'static str)
    requires
        d < 10,
    ensures
        r@ == seq![spec_digit_char(d as nat)],
{
    proof {
        reveal_strlit("0");
        reveal_strlit("1");
        reveal_strlit("2");
        reveal_strlit("3");
        reveal_strlit("4");
        reveal_strlit("5");
        reveal_strlit("6");
        reveal_strlit("7");
        reveal_strlit("8");
        reveal_strlit("9");
    }
    if d == 0 {
        "0"
    } else if d == 1 {
        "1"
    } else if d == 2 {
        "2"
    } else if d == 3 {
        "3"
    } else if d == 4 {
        "4"
    } else if d == 5 {
        "5"
    } else if d == 6 {
        "6"
    } else if d == 7 {
        "7"
    } else if d == 8 {
        "8"
    } else {
        "9"
    }
}

/// Render a number in decimal.
pub fn u64_to_decimal(n: u64) -> (r: String)
    ensures
        r@ == spec_decimal(n as nat),
    decreases n,
{
    if n < 10 {
        digit_str(n).to_owned()
    } else {
        let mut s = u64_to_decimal(n / 10);
        s.append(digit_str(n % 10));
        s
    }
}

/// Generate the object key for a filename at a given time.
pub fn make_object_key(timestamp: u64, filename: &str) -> (r: String)
    ensures
        r@ == spec_object_key(timestamp as nat, filename@),
{
    proof {
        reveal_strlit("_");
    }
    let mut s = u64_to_decimal(timestamp);
    s.append("_");
    s.append(filename);
    proof {
        assert("_"@ =~= seq!['_']);
    }
    s
}

/// Compute the public URL of an object.
pub fn public_url(region: &str, bucket: &str, key: &str) -> (r: String)
    ensures
        r@ == spec_public_url(region@, bucket@, key@),
{
    let mut s = String::new();
    s.append("https://s3.");
    s.append(region);
    s.append(".amazonaws.com/");
    s.append(bucket);
    s.append("/");
    s.append(key);
    s
}

/// Compute the copy-source path for a copy request.
pub fn copy_source(bucket: &str, key: &str) -> (r: String)
    ensures
        r@ == spec_copy_source(bucket@, key@),
{
    let mut s = String::new();
    s.append(bucket);
    s.append("/");
    s.append(key);
    s
}

} // verus!
