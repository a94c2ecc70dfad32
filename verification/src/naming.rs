//! The names under which a function is exported.
//!
//! A function is exported under its own name, or under its name behind a
//! prefix and an underscore, and the function that returns its descriptor
//! is exported under that name followed by `_info_`.

use vstd::prelude::*;
use vstd::string::StringExecFns;
use vstd::string::StrSliceExecFns;

verus! {

/// The error for a name prefix that ends with an underscore.
#[derive(Clone, Copy, PartialEq, Eq, Structural, Debug)]
pub struct TrailingUnderscore;

impl TrailingUnderscore {
    /// The text of the error.
    pub fn message(&self) -> (text: String)
        ensures
            text@
                == "name prefix should not include a trailing underscore, as one will be added automatically"@,
    {
        String::from_str(
            "name prefix should not include a trailing underscore, as one will be added automatically",
        )
    }
}

/// What the arguments of an export say.
pub struct JsArgs {
    /// The prefix for the exported name, with its underscore.
    pub prefix: Option<String>,
}

/// Whether `text` ends with an underscore.
pub open spec fn ends_with_underscore(text: Seq<char>) -> bool {
    text.len() > 0 && text.last() == '_'
}

/// The key of the one argument that is understood.
pub open spec fn prefix_key() -> Seq<char> {
    "name_prefix"@
}

/// The prefix that the arguments `args`, pairs of key and value, ask for:
/// that of the last `name_prefix` among them, with an underscore behind it.
/// Other keys are passed over. Where the value of a `name_prefix` ends with
/// an underscore, the place of the first such argument.
pub open spec fn parsed(args: Seq<(String, String)>) -> Result<Option<Seq<char>>, int>
    decreases args.len(),
{
    if args.len() == 0 {
        Ok(None)
    } else {
        match parsed(args.drop_last()) {
            Err(at) => Err(at),
            Ok(earlier) => if args.last().0@ == prefix_key() {
                if ends_with_underscore(args.last().1@) {
                    Err(args.len() - 1)
                } else {
                    Ok(Some(args.last().1@.push('_')))
                }
            } else {
                Ok(earlier)
            },
        }
    }
}

/// The prefix that the value `value` of a `name_prefix` stands for: the
/// value and an underscore. A value that ends with an underscore is refused.
pub fn name_prefix(value: &str) -> (prefix: Result<String, TrailingUnderscore>)
    ensures
        match prefix {
            Ok(text) => !ends_with_underscore(value@) && text@ == value@.push('_'),
            Err(_) => ends_with_underscore(value@),
        },
{
    let n = value.unicode_len();
    if n > 0 && value.get_char(n - 1) == '_' {
        return Err(TrailingUnderscore);
    }
    let mut text = String::from_str(value);
    text.append("_");
    proof {
        reveal_strlit("_");
        assert(text@ =~= value@.push('_'));
    }
    Ok(text)
}

impl JsArgs {
    /// Reads the arguments `args`, pairs of key and value in the order in
    /// which they were written. An argument that is refused is named by its
    /// place.
    pub fn parse(args: &Vec<(String, String)>) -> (out: Result<JsArgs, (usize, TrailingUnderscore)>)
        ensures
            match out {
                Ok(js) => match js.prefix {
                    Some(text) => parsed(args@) == Ok::<Option<Seq<char>>, int>(Some(text@)),
                    None => parsed(args@) == Ok::<Option<Seq<char>>, int>(None),
                },
                Err((at, _)) => parsed(args@) == Err::<Option<Seq<char>>, int>(at as int),
            },
    {
        let key = String::from_str("name_prefix");
        let mut prefix: Option<String> = None;
        let mut i: usize = 0;
        while i < args.len()
            invariant
                i <= args@.len(),
                key@ == prefix_key(),
                match prefix {
                    Some(text) => parsed(args@.take(i as int)) == Ok::<Option<Seq<char>>, int>(
                        Some(text@),
                    ),
                    None => parsed(args@.take(i as int)) == Ok::<Option<Seq<char>>, int>(None),
                },
            decreases args@.len() - i,
        {
            proof {
                let upto = args@.take(i + 1);
                assert(upto.drop_last() =~= args@.take(i as int));
                assert(upto.last() == args@[i as int]);
            }
            if args[i].0 == key {
                match name_prefix(args[i].1.as_str()) {
                    Ok(text) => {
                        prefix = Some(text);
                    },
                    Err(e) => {
                        proof {
                            lemma_parsed_fails(args@, i + 1);
                        }
                        return Err((i, e));
                    },
                }
            }
            i = i + 1;
        }
        assert(args@.take(i as int) =~= args@);
        Ok(JsArgs { prefix })
    }
}

/// Once the arguments up to some place are refused, all of them are, for
/// the same argument.
pub proof fn lemma_parsed_fails(args: Seq<(String, String)>, upto: int)
    requires
        0 <= upto <= args.len(),
        parsed(args.take(upto)).is_err(),
    ensures
        parsed(args) == parsed(args.take(upto)),
    decreases args.len() - upto,
{
    if upto < args.len() {
        let next = args.take(upto + 1);
        assert(next.drop_last() =~= args.take(upto));
        lemma_parsed_fails(args, upto + 1);
    } else {
        assert(args.take(upto) =~= args);
    }
}

/// The name under which the function `name` is exported.
pub fn exported_name(prefix: &Option<String>, name: &str) -> (full: String)
    ensures
        full@ == match prefix {
            Some(text) => text@ + name@,
            None => name@,
        },
{
    match prefix {
        Some(text) => {
            let mut full = text.clone();
            full.append(name);
            full
        },
        None => String::from_str(name),
    }
}

/// The name under which the descriptor of the function `name` is exported.
pub fn info_name(name: &str) -> (full: String)
    ensures
        full@ == name@ + "_info_"@,
{
    let mut full = String::from_str(name);
    full.append("_info_");
    full
}

} // verus!
