//! Small supporting pieces: title-to-filename sanitization and the argument
//! list of the external merge tool.

use vstd::prelude::*;
use vstd::string::StringExecFns;

verus! {

/// The characters of a name after the filename sanitizer has stripped what
/// the filesystem refuses.
pub uninterp spec fn sanitized_of(s: Seq<char>) -> Seq<char>;

/// Relies on sanitize_filename::sanitize_with_options: strips characters
/// that are illegal in file names. The options are pinned (no platform
/// dependence, empty replacement, truncation on), so the result is a
/// function of the input characters alone.
#[verifier::external_body]
fn sanitize_name(name: &str) -> (r: String)
    ensures
        r@ == sanitized_of(name@),
{
    sanitize_filename::sanitize_with_options(
        name,
        sanitize_filename::Options { windows: false, truncate: true, replacement: "" },
    )
}

/// Strip characters illegal in file names from a non-empty title, leaving
/// the name the cache and output files are stored under.
pub fn file_name_filter(file_name: &str) -> (r: String)
    requires
        file_name@.len() > 0,
    ensures
        r@ == sanitized_of(file_name@),
{
    sanitize_name(file_name)
}

/// The argument list handed to the external merge tool: copy the video and
/// audio tracks of the two cache files into one output container, with
/// `-y` overwriting an existing output.
pub fn merge_command(v_path: &str, a_path: &str, out_path: &str) -> (args: Vec<String>)
    ensures
        args@.len() == 10,
        args@[0]@ == "-y"@,
        args@[1]@ == "-i"@,
        args@[2]@ == v_path@,
        args@[3]@ == "-i"@,
        args@[4]@ == a_path@,
        args@[5]@ == "-c:v"@,
        args@[6]@ == "copy"@,
        args@[7]@ == "-c:a"@,
        args@[8]@ == "copy"@,
        args@[9]@ == out_path@,
{
    let mut args: Vec<String> = Vec::new();
    args.push(String::from_str("-y"));
    args.push(String::from_str("-i"));
    args.push(String::from_str(v_path));
    args.push(String::from_str("-i"));
    args.push(String::from_str(a_path));
    args.push(String::from_str("-c:v"));
    args.push(String::from_str("copy"));
    args.push(String::from_str("-c:a"));
    args.push(String::from_str("copy"));
    args.push(String::from_str(out_path));
    args
}

} // verus!
