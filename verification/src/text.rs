//! Small verified text helpers: decimal rendering of integers and the
//! character substitution used by image-resource URLs.

use vstd::prelude::*;

verus! {

/// The character for a single decimal digit.
pub open spec fn digit_char(d: nat) -> char {
    if d == 0 {
        '0'
    } else if d == 1 {
        '1'
    } else if d == 2 {
        '2'
    } else if d == 3 {
        '3'
    } else if d == 4 {
        '4'
    } else if d == 5 {
        '5'
    } else if d == 6 {
        '6'
    } else if d == 7 {
        '7'
    } else if d == 8 {
        '8'
    } else {
        '9'
    }
}

/// The usual decimal rendering of `n`, most significant digit first,
/// with no leading zeros (and "0" for zero).
pub open spec fn spec_digits(n: nat) -> Seq<char>
    decreases n,
{
    if n < 10 {
        seq![digit_char(n)]
    } else {
        spec_digits(n / 10).push(digit_char(n % 10))
    }
}

fn digit_str(d: u64) -> (s: &'static str)
    requires
        d < 10,
    ensures
        s@ == seq![digit_char(d as nat)],
{
    proof {
        reveal_strlit("0");
        reveal_strlit("1");
        reveal_strlit("2");
        reveal_strlit("3");
        reveal_strlit("4");
        reveal_strlit("5");
        reveal_strlit("6");
        reveal_strlit("7");
        reveal_strlit("8");
        reveal_strlit("9");
    }
    let s: &'static str = if d == 0 {
        "0"
    } else if d == 1 {
        "1"
    } else if d == 2 {
        "2"
    } else if d == 3 {
        "3"
    } else if d == 4 {
        "4"
    } else if d == 5 {
        "5"
    } else if d == 6 {
        "6"
    } else if d == 7 {
        "7"
    } else if d == 8 {
        "8"
    } else {
        "9"
    };
    proof {
        assert(s@ =~= seq![digit_char(d as nat)]);
    }
    s
}

/// Render `n` in decimal.
pub fn u64_string(n: u64) -> (s: String)
    ensures
        s@ == spec_digits(n as nat),
    decreases n,
{
    if n < 10 {
        String::from_str(digit_str(n))
    } else {
        proof {
            assert(n / 10 < n) by (nonlinear_arith)
                requires
                    n >= 10,
            ;
        }
        let mut s = u64_string(n / 10);
        s.append(digit_str(n % 10));
        proof {
            assert(s@ =~= spec_digits(n as nat));
        }
        s
    }
}

/// Render `n` in decimal.
pub fn usize_string(n: usize) -> (s: String)
    ensures
        s@ == spec_digits(n as nat),
{
    u64_string(n as u64)
}

/// Render `n` in decimal.
pub fn u32_string(n: u32) -> (s: String)
    ensures
        s@ == spec_digits(n as nat),
{
    u64_string(n as u64)
}

/// Render `n` in decimal.
pub fn u16_string(n: u16) -> (s: String)
    ensures
        s@ == spec_digits(n as nat),
{
    u64_string(n as u64)
}

/// Relies on str's PartialEq: character-for-character equality of two
/// string slices.
#[verifier::external_body]
pub(crate) fn str_eq(a: &str, b: &str) -> (r: bool)
    ensures
        r == (a@ == b@),
{
    a == b
}

/// `s` with every '-' replaced by '/': the form in which catalog image
/// identifiers are spliced into resource URLs.
pub open spec fn spec_dashes_to_slashes(s: Seq<char>) -> Seq<char> {
    s.map_values(|c: char| if c == '-' { '/' } else { c })
}

/// Replace every '-' in `s` with '/'.
pub fn dashes_to_slashes(s: &str) -> (r: String)
    ensures
        r@ == spec_dashes_to_slashes(s@),
{
    let n: usize = s.unicode_len();
    let mut out = String::new();
    let mut i: usize = 0;
    proof {
        reveal_strlit("/");
        assert(out@ =~= spec_dashes_to_slashes(s@.take(0)));
    }
    while i < n
        invariant
            n == s@.len(),
            i <= n,
            out@ == spec_dashes_to_slashes(s@.take(i as int)),
        decreases n - i,
    {
        let c = s.get_char(i);
        if c == '-' {
            out.append("/");
        } else {
            let piece = s.substring_char(i, i + 1);
            out.append(piece);
        }
        proof {
            assert("/"@ == seq!['/']) by {
                reveal_strlit("/");
                assert("/"@.len() == 1);
                assert("/"@ =~= seq!['/']);
            }
            assert(s@.subrange(i as int, i + 1) =~= seq![s@[i as int]]);
            assert(out@ =~= spec_dashes_to_slashes(s@.take(i + 1)));
        }
        i += 1;
    }
    proof {
        assert(s@.take(n as int) =~= s@);
    }
    out
}

/// The URL of a catalog image resource: the image identifier with its
/// dashes turned into path separators, followed by the requested dimensions.
pub open spec fn spec_image_url(id: Seq<char>, height: nat, width: nat) -> Seq<char> {
    "https://resources.tidal.com/images/"@ + spec_dashes_to_slashes(id) + "/"@ + spec_digits(
        height,
    ) + "x"@ + spec_digits(width) + ".jpg"@
}

/// Build the URL of a catalog image resource at the given dimensions.
pub fn image_resource_url(id: &str, height: u16, width: u16) -> (r: String)
    ensures
        r@ == spec_image_url(id@, height as nat, width as nat),
{
    let mut u = String::from_str("https://resources.tidal.com/images/");
    u.append(dashes_to_slashes(id).as_str());
    u.append("/");
    u.append(u16_string(height).as_str());
    u.append("x");
    u.append(u16_string(width).as_str());
    u.append(".jpg");
    proof {
        assert(u@ =~= spec_image_url(id@, height as nat, width as nat));
    }
    u
}

} // verus!
