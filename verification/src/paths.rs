//! Expansion of a path that a user wrote: a leading tilde stands for the
//! home directory, and `$NAME` or `${NAME}` for a variable of the
//! environment.

use crate::autostart::{join_path, joined};
use crate::text::opt_text;
use vstd::prelude::*;

verus! {

/// The pattern of a reference to a variable: a name in braces after a
/// dollar sign, or a bare name of letters, digits and underscores that
/// begins with no digit.
pub const REFERENCE_PATTERN: &'static str = "\\$\\{([^}]+)\\}|\\$([A-Za-z_][A-Za-z0-9_]*)";

/// The first reference to a variable in a text, with the text around it.
#[derive(Debug, Clone, PartialEq, Eq)]
pub struct Reference {
    /// The text before the reference.
    pub before: String,
    /// The reference as it is written.
    pub whole: String,
    /// The name, where it is written in braces.
    pub braced: Option<String>,
    /// The name, where it is written bare.
    pub bare: Option<String>,
    /// The text after the reference.
    pub after: String,
}

/// A reference, with its texts as sequences of characters.
pub ghost struct ReferenceModel {
    pub before: Seq<char>,
    pub whole: Seq<char>,
    pub braced: Option<Seq<char>>,
    pub bare: Option<Seq<char>>,
    pub after: Seq<char>,
}

impl View for Reference {
    type V = ReferenceModel;

    open spec fn view(&self) -> ReferenceModel {
        ReferenceModel {
            before: self.before@,
            whole: self.whole@,
            braced: match self.braced {
                Some(n) => Some(n@),
                None => None,
            },
            bare: match self.bare {
                Some(n) => Some(n@),
                None => None,
            },
            after: self.after@,
        }
    }
}

/// The leftmost match of `REFERENCE_PATTERN` in `text`, as the `regex`
/// crate finds it; `None` where there is no match.
pub uninterp spec fn reference_in(text: Seq<char>) -> Option<ReferenceModel>;

/// The name that a reference speaks of: the braced one first.
pub open spec fn reference_name(r: ReferenceModel) -> Seq<char> {
    match r.braced {
        Some(n) => n,
        None => match r.bare {
            Some(n) => n,
            None => Seq::empty(),
        },
    }
}

/// The value of the first variable called `name` among `vars`, from index
/// `from` on.
pub open spec fn lookup(vars: Seq<(String, String)>, name: Seq<char>, from: int) -> Option<
    Seq<char>,
>
    decreases vars.len() - from,
{
    if from < 0 || from >= vars.len() {
        None
    } else if vars[from].0@ == name {
        Some(vars[from].1@)
    } else {
        lookup(vars, name, from + 1)
    }
}

/// What stands in place of a reference: the variable's value where it is
/// set, else the reference as it is written.
pub open spec fn replacement(r: ReferenceModel, vars: Seq<(String, String)>) -> Seq<char> {
    match lookup(vars, reference_name(r), 0) {
        Some(v) => v,
        None => r.whole,
    }
}

/// `text` with each reference to a variable replaced, from left to right.
/// A value that was put in is not searched again. The search goes on in
/// the text after a reference only where that text is shorter than the
/// text searched; otherwise the text stays as it is.
pub open spec fn expanded_variables(text: Seq<char>, vars: Seq<(String, String)>) -> Seq<char>
    decreases text.len(),
{
    match reference_in(text) {
        Some(r) => if r.after.len() < text.len() {
            r.before + replacement(r, vars) + expanded_variables(r.after, vars)
        } else {
            text
        },
        None => text,
    }
}

/// `path` with a leading tilde replaced by the home directory, where that
/// is known: `~` alone is the home directory, and `~/rest` is `rest`
/// inside it (`rest` itself where it begins at the root).
pub open spec fn expanded_home(path: Seq<char>, home: Option<Seq<char>>) -> Seq<char> {
    match home {
        None => path,
        Some(h) => if path.len() >= 2 && path[0] == '~' && path[1] == '/' {
            let rest = path.subrange(2, path.len() as int);
            if rest.len() > 0 && rest[0] == '/' {
                rest
            } else {
                joined(h, rest)
            }
        } else if path.len() == 1 && path[0] == '~' {
            h
        } else {
            path
        },
    }
}

/// Compiles `REFERENCE_PATTERN` with `Regex::new`, asks `Regex::captures`
/// for its leftmost match in `text`, and copies out of the match the
/// text before it, the match, its two groups and the text after it.
/// The contract names the result; it depends on `text` alone.
#[verifier::external_body]
pub(crate) fn first_reference(text: &str) -> (r: Option<Reference>)
    ensures
        r.is_some() == reference_in(text@).is_some(),
        r.is_some() ==> r.unwrap()@ == reference_in(text@).unwrap(),
{
    let caps = regex::Regex::new(REFERENCE_PATTERN).ok()?.captures(text)?;
    let whole = caps.get(0)?;
    Some(
        Reference {
            before: text[..whole.start()].to_string(),
            whole: whole.as_str().to_string(),
            braced: caps.get(1).map(|m| m.as_str().to_string()),
            bare: caps.get(2).map(|m| m.as_str().to_string()),
            after: text[whole.end()..].to_string(),
        },
    )
}

/// The value of the first variable called `name` among `vars`.
pub fn find_variable<'a>(vars: &'a Vec<(String, String)>, name: &String) -> (r: Option<&'a String>)
    ensures
        r.is_some() == lookup(vars@, name@, 0).is_some(),
        r.is_some() ==> r.unwrap()@ == lookup(vars@, name@, 0).unwrap(),
{
    let mut i: usize = 0;
    while i < vars.len()
        invariant
            i <= vars@.len(),
            lookup(vars@, name@, 0) == lookup(vars@, name@, i as int),
        decreases vars@.len() - i,
    {
        if vars[i].0 == *name {
            return Some(&vars[i].1);
        }
        i += 1;
    }
    None
}

/// What stands in place of a reference.
pub fn substitute(reference: &Reference, vars: &Vec<(String, String)>) -> (r: String)
    ensures
        r@ == replacement(reference@, vars@),
{
    let empty = String::new();
    let name: &String = match &reference.braced {
        Some(n) => n,
        None => match &reference.bare {
            Some(n) => n,
            None => &empty,
        },
    };
    match find_variable(vars, name) {
        Some(v) => v.clone(),
        None => reference.whole.clone(),
    }
}

/// `text` with each reference to a variable replaced by the variable's
/// value among `vars`; a reference to a variable that is not set stays as
/// it is written.
pub fn expand_variables(text: &str, vars: &Vec<(String, String)>) -> (r: String)
    ensures
        r@ == expanded_variables(text@, vars@),
{
    let mut out = String::new();
    let mut rest = String::from_str(text);
    let mut done: bool = false;
    proof {
        assert(out@ + expanded_variables(rest@, vars@) =~= expanded_variables(text@, vars@));
    }
    while !done
        invariant
            out@ + expanded_variables(rest@, vars@) == expanded_variables(text@, vars@),
            done ==> expanded_variables(rest@, vars@) == rest@,
        decreases rest@.len() + (if done { 0int } else { 1int }),
    {
        let ghost before_out = out@;
        match first_reference(rest.as_str()) {
            Some(reference) => {
                if reference.after.as_str().unicode_len() < rest.as_str().unicode_len() {
                    let value = substitute(&reference, vars);
                    out.append(reference.before.as_str());
                    out.append(value.as_str());
                    proof {
                        let r = reference@;
                        assert(before_out + (r.before + replacement(r, vars@)
                            + expanded_variables(r.after, vars@)) =~= out@ + expanded_variables(
                            r.after,
                            vars@,
                        ));
                    }
                    rest = reference.after;
                } else {
                    done = true;
                }
            },
            None => {
                done = true;
            },
        }
    }
    out.append(rest.as_str());
    out
}

/// `path` with a leading tilde replaced by the home directory `home`,
/// where it is known.
pub fn expand_home(path: &str, home: Option<&str>) -> (r: String)
    ensures
        r@ == expanded_home(path@, opt_text(home)),
{
    let n: usize = path.unicode_len();
    match home {
        None => String::from_str(path),
        Some(h) => {
            if n >= 2 && path.get_char(0) == '~' && path.get_char(1) == '/' {
                let rest = path.substring_char(2, n);
                if n > 2 && rest.get_char(0) == '/' {
                    String::from_str(rest)
                } else {
                    join_path(h, rest)
                }
            } else if n == 1 && path.get_char(0) == '~' {
                String::from_str(h)
            } else {
                String::from_str(path)
            }
        },
    }
}

/// Expands a path: first the leading tilde, by the home directory, then
/// the references to variables, by the variables `vars` of the
/// environment.
pub fn expand_path(path: &str, home: Option<&str>, vars: &Vec<(String, String)>) -> (r: String)
    ensures
        r@ == expanded_variables(expanded_home(path@, opt_text(home)), vars@),
{
    let with_home = expand_home(path, home);
    expand_variables(with_home.as_str(), vars)
}

} // verus!
