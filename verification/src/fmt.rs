//! Formatting of console headlines.
//!
//! The host application styles and prints these lines; their text is
//! assembled here.

use vstd::prelude::*;
use vstd::string::StringExecFns;

verus! {

/// The headline announcing a command run: the optional message, then
/// the command text and its working directory.
pub open spec fn headline_spec(exe: Seq<char>, pwd: Seq<char>, msg: Option<Seq<char>>) -> Seq<
    char,
> {
    let tail = "$ "@ + exe + " [@ "@ + pwd + "]"@;
    match msg {
        Some(m) => "> "@ + m + ": "@ + tail,
        None => "> "@ + tail,
    }
}

/// Formats the headline that gets printed to the console when running
/// a command:
///
/// ```sh
/// > Building server: $ cargo build [@ my-project/server]
/// ```
pub fn headline(exe: &str, pwd: &str, msg: Option<&String>) -> (r: String)
    ensures
        r@ == headline_spec(
            exe@,
            pwd@,
            match msg {
                Some(m) => Some(m@),
                None => None,
            },
        ),
{
    let mut out: String = "> ".to_owned();
    match msg {
        Some(m) => {
            out.append(m.as_str());
            out.append(": ");
        },
        None => {},
    }
    out.append("$ ");
    out.append(exe);
    out.append(" [@ ");
    out.append(pwd);
    out.append("]");
    proof {
        assert(out@ =~= headline_spec(
            exe@,
            pwd@,
            match msg {
                Some(m) => Some(m@),
                None => None,
            },
        ));
    }
    out
}

/// Formats a bare message as a headline: `> Nothing to do. Exiting.`
pub fn plain_headline(msg: &str) -> (r: String)
    ensures
        r@ == "> "@ + msg@,
{
    let mut out: String = "> ".to_owned();
    out.append(msg);
    out
}

} // verus!
