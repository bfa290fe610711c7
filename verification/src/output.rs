//! File naming and the choice of how an image is written.

use crate::error::ImageError;
use crate::params::{extension_of, format_extension};
use crate::text::{chars_of, concat, decimal, decimal_string, owned, push_chars, str_eq};
use vstd::prelude::*;
use vstd::string::*;

verus! {

/// ASCII letters and digits.
pub open spec fn is_ascii_alphanumeric(c: char) -> bool {
    ('0' <= c && c <= '9') || ('a' <= c && c <= 'z') || ('A' <= c && c <= 'Z')
}

/// The lower case form of an ASCII letter; any other character is itself.
pub open spec fn ascii_lower(c: char) -> char {
    if 'A' <= c && c <= 'Z' {
        ((c as u8 + 32) as u8) as char
    } else {
        c
    }
}

/// The scan that turns text into kebab case, at most `max_len` characters
/// long: letters and digits are kept in lower case, each run of other
/// characters becomes one hyphen, and no hyphen comes first.
pub open spec fn kebab(input: Seq<char>, max_len: nat) -> Seq<char>
    decreases input.len(),
{
    if input.len() == 0 {
        Seq::empty()
    } else {
        let done = kebab(input.drop_last(), max_len);
        let c = input.last();
        if done.len() >= max_len {
            done
        } else if is_ascii_alphanumeric(c) {
            done.push(ascii_lower(c))
        } else if done.len() > 0 && done.last() != '-' {
            done.push('-')
        } else {
            done
        }
    }
}

/// `s` without the hyphens at its end.
pub open spec fn trim_hyphens(s: Seq<char>) -> Seq<char>
    decreases s.len(),
{
    if s.len() > 0 && s.last() == '-' {
        trim_hyphens(s.drop_last())
    } else {
        s
    }
}

/// The part of the input that the scan looks at: its first `2 * max_len`
/// characters.
pub open spec fn scanned_part(input: Seq<char>, max_len: nat) -> Seq<char> {
    if input.len() <= 2 * max_len {
        input
    } else {
        input.take(2 * max_len as int)
    }
}

/// The file name stem made from `input`: the kebab case of its scanned part
/// without hyphens at the end, or `image` when nothing is left.
pub open spec fn sanitized(input: Seq<char>, max_len: nat) -> Seq<char> {
    let stem = trim_hyphens(kebab(scanned_part(input, max_len), max_len));
    if stem.len() == 0 {
        "image"@
    } else {
        stem
    }
}

/// Once the scan has reached `max_len` characters, further input changes
/// nothing.
pub proof fn lemma_kebab_full(input: Seq<char>, max_len: nat, n: int)
    requires
        0 <= n <= input.len(),
        kebab(input.take(n), max_len).len() >= max_len,
    ensures
        kebab(input, max_len) == kebab(input.take(n), max_len),
    decreases input.len() - n,
{
    if n == input.len() {
        assert(input.take(n) =~= input);
    } else {
        assert(input.take(n + 1).drop_last() =~= input.take(n));
        lemma_kebab_full(input, max_len, n + 1);
    }
}

/// What a file name stem is made of: lower case ASCII letters, digits and
/// single hyphens between them.
pub open spec fn is_stem(s: Seq<char>) -> bool {
    &&& forall|i: int|
        0 <= i < s.len() ==> ('a' <= #[trigger] s[i] && s[i] <= 'z') || ('0' <= s[i] && s[i]
            <= '9') || s[i] == '-'
    &&& forall|i: int| 0 <= i < s.len() - 1 ==> !(#[trigger] s[i] == '-' && s[i + 1] == '-')
    &&& s.len() > 0 ==> s[0] != '-' && s.last() != '-'
}

/// A scan in progress: as a stem, but a hyphen may stand at the end.
spec fn is_open_stem(s: Seq<char>) -> bool {
    &&& forall|i: int|
        0 <= i < s.len() ==> ('a' <= #[trigger] s[i] && s[i] <= 'z') || ('0' <= s[i] && s[i]
            <= '9') || s[i] == '-'
    &&& forall|i: int| 0 <= i < s.len() - 1 ==> !(#[trigger] s[i] == '-' && s[i + 1] == '-')
    &&& s.len() > 0 ==> s[0] != '-'
}

proof fn lemma_kebab_is_open_stem(input: Seq<char>, max_len: nat)
    ensures
        is_open_stem(kebab(input, max_len)),
        kebab(input, max_len).len() <= max_len,
    decreases input.len(),
{
    if input.len() > 0 {
        lemma_kebab_is_open_stem(input.drop_last(), max_len);
    }
}

proof fn lemma_trim_closes_stem(s: Seq<char>)
    requires
        is_open_stem(s),
    ensures
        is_stem(trim_hyphens(s)),
        trim_hyphens(s).len() <= s.len(),
    decreases s.len(),
{
    if s.len() > 0 && s.last() == '-' {
        let rest = s.drop_last();
        assert forall|i: int| 0 <= i < rest.len() - 1 implies !(#[trigger] rest[i] == '-' && rest[i
            + 1] == '-') by {
            assert(rest[i] == s[i] && rest[i + 1] == s[i + 1]);
        }
        lemma_trim_closes_stem(rest);
    }
}

/// A sanitized name is fit for a file name: it is never empty, it is made
/// of lower case ASCII letters, digits and single hyphens, it neither
/// starts nor ends with a hyphen, and it is `image` or at most `max_len`
/// characters long.
pub proof fn sanitized_is_a_stem(input: Seq<char>, max_len: nat)
    ensures
        is_stem(sanitized(input, max_len)),
        sanitized(input, max_len).len() > 0,
        sanitized(input, max_len) == "image"@ || sanitized(input, max_len).len() <= max_len,
{
    reveal_strlit("image");
    lemma_kebab_is_open_stem(scanned_part(input, max_len), max_len);
    lemma_trim_closes_stem(kebab(scanned_part(input, max_len), max_len));
}

fn is_alphanumeric(c: char) -> (b: bool)
    ensures
        b == is_ascii_alphanumeric(c),
{
    ('0' <= c && c <= '9') || ('a' <= c && c <= 'z') || ('A' <= c && c <= 'Z')
}

fn to_lower(c: char) -> (r: char)
    ensures
        r == ascii_lower(c),
{
    if 'A' <= c && c <= 'Z' {
        let code: u8 = c as u8;
        (code + 32) as char
    } else {
        c
    }
}

/// Sanitize a string for use in a file name.
///
/// Converts to lower case, replaces other characters than ASCII letters and
/// digits with hyphens, collapses consecutive hyphens, trims to `max_len`
/// and falls back to `image`.
pub fn sanitize_for_filename(input: &str, max_len: usize) -> (name: String)
    ensures
        name@ == sanitized(input@, max_len as nat),
{
    let chars = chars_of(input);
    let limit: usize = if max_len > usize::MAX / 2 || chars.len() <= max_len * 2 {
        chars.len()
    } else {
        max_len * 2
    };
    let ghost part = scanned_part(input@, max_len as nat);
    assert(part =~= chars@.take(limit as int));
    let mut out: Vec<char> = Vec::new();
    let mut i: usize = 0;
    while i < limit && out.len() < max_len
        invariant
            i <= limit <= chars.len(),
            part == chars@.take(limit as int),
            out@ == kebab(part.take(i as int), max_len as nat),
        decreases limit - i,
    {
        let c = chars[i];
        assert(part.take(i + 1).drop_last() =~= part.take(i as int));
        assert(part.take(i + 1).last() == c);
        if is_alphanumeric(c) {
            out.push(to_lower(c));
        } else if out.len() > 0 && out[out.len() - 1] != '-' {
            out.push('-');
        }
        i += 1;
    }
    proof {
        if i < limit {
            lemma_kebab_full(part, max_len as nat, i as int);
        } else {
            assert(part.take(i as int) =~= part);
        }
    }
    let mut end: usize = out.len();
    assert(out@.take(end as int) =~= out@);
    while end > 0 && out[end - 1] == '-'
        invariant
            end <= out.len(),
            trim_hyphens(out@) == trim_hyphens(out@.take(end as int)),
        decreases end,
    {
        assert(out@.take(end as int).drop_last() =~= out@.take(end - 1));
        end -= 1;
    }
    if end == 0 {
        assert(out@.take(0).len() == 0);
        owned("image")
    } else {
        let mut name = String::new();
        push_chars(&mut name, &out, 0, end);
        assert(out@.subrange(0, end as int) =~= out@.take(end as int));
        name
    }
}

/// The generated file name for a prompt: its stem of at most 50 characters,
/// the time in seconds and the extension of the format.
pub open spec fn auto_filename_text(prompt: Seq<char>, format: Seq<char>, timestamp: u64) -> Seq<
    char,
> {
    sanitized(prompt, 50) + "-"@ + decimal(timestamp as nat) + "."@ + extension_of(format)
}

/// Generate an output file name from a prompt, a format and the time of the
/// call, given in seconds since the Unix epoch.
pub fn auto_filename_at(prompt: &str, format: &str, timestamp: u64) -> (name: String)
    ensures
        name@ == auto_filename_text(prompt@, format@, timestamp),
{
    let mut name = sanitize_for_filename(prompt, 50);
    name.append("-");
    name.append(decimal_string(timestamp).as_str());
    name.append(".");
    name.append(format_extension(format));
    name
}

/// Reads the system clock: the whole seconds since the Unix epoch, or zero
/// when the clock stands before it. Nothing is promised of the value.
#[verifier::external_body]
fn unix_seconds() -> u64 {
    std::time::SystemTime::now().duration_since(std::time::UNIX_EPOCH).unwrap_or_default().as_secs()
}

/// Generate an output file name from a prompt and format.
///
/// Sanitizes the first 50 characters of the prompt to kebab case, appends
/// the current Unix time and adds the file extension.
pub fn auto_filename(prompt: &str, format: &str) -> (name: String)
    ensures
        exists|timestamp: u64| name@ == auto_filename_text(prompt@, format@, timestamp),
{
    let now = unix_seconds();
    auto_filename_at(prompt, format, now)
}

/// Resolve the output path: the explicit path where one is given, else a
/// generated file name.
pub fn resolve_output_path(explicit: Option<&str>, prompt: &str, format: &str) -> (path: String)
    ensures
        match explicit {
            Some(p) => path@ == p@,
            None => exists|timestamp: u64|
                path@ == auto_filename_text(prompt@, format@, timestamp),
        },
{
    match explicit {
        Some(p) => owned(p),
        None => auto_filename(prompt, format),
    }
}

/// Whether image data of the MIME type is already in the requested format.
pub open spec fn mime_matches(mime: Seq<char>, format: Seq<char>) -> bool {
    ||| (mime == "image/jpeg"@ && format == "jpeg"@)
    ||| (mime == "image/png"@ && format == "png"@)
    ||| (mime == "image/webp"@ && format == "webp"@)
}

/// Check if a MIME type matches the requested output format.
pub fn mime_matches_format(mime: &str, format: &str) -> (matches: bool)
    ensures
        matches == mime_matches(mime@, format@),
{
    (str_eq(mime, "image/jpeg") && str_eq(format, "jpeg")) || (str_eq(mime, "image/png")
        && str_eq(format, "png")) || (str_eq(mime, "image/webp") && str_eq(format, "webp"))
}

/// The encodings that image data can be converted to.
#[derive(Debug, Clone, Copy, PartialEq, Eq, Structural)]
pub enum TargetFormat {
    /// JPEG.
    Jpeg,
    /// PNG.
    Png,
    /// WebP.
    WebP,
}

/// The encoding named by an output format, if any.
pub open spec fn target_of(format: Seq<char>) -> Option<TargetFormat> {
    if format == "jpeg"@ {
        Some(TargetFormat::Jpeg)
    } else if format == "png"@ {
        Some(TargetFormat::Png)
    } else if format == "webp"@ {
        Some(TargetFormat::WebP)
    } else {
        None
    }
}

/// The encoding to convert image data to for the requested output format.
///
/// Fails with an image conversion error that names the format when it is
/// none of `jpeg`, `png` and `webp`.
pub fn conversion_target(format: &str) -> (r: Result<TargetFormat, ImageError>)
    ensures
        match r {
            Ok(t) => target_of(format@) == Some(t),
            Err(e) => target_of(format@) is None && (e matches ImageError::ImageConversion(m)
                && m@ == "Unsupported format: "@ + format@),
        },
{
    if str_eq(format, "jpeg") {
        Ok(TargetFormat::Jpeg)
    } else if str_eq(format, "png") {
        Ok(TargetFormat::Png)
    } else if str_eq(format, "webp") {
        Ok(TargetFormat::WebP)
    } else {
        Err(ImageError::ImageConversion(concat("Unsupported format: ", format)))
    }
}

} // verus!
