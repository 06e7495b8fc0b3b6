//! Naming conventions that turn a field name into the symbol name looked up for it.

use vstd::prelude::*;
use vstd::string::StringExecFns;
use crate::text::{debug_string, debug_text, lower_char, lower_text, to_lower, to_lower_text,
    to_upper, to_upper_text, upper_char, upper_text};

verus! {

/// The naming conventions a field name can be converted to.
#[derive(Copy, Clone, PartialEq, Eq, Structural, Debug)]
pub enum RenameRule {
    /// No convention was chosen.
    Unset,
    /// "lowercase".
    LowerCase,
    /// "UPPERCASE".
    UpperCase,
    /// "PascalCase".
    PascalCase,
    /// "camelCase".
    CamelCase,
    /// "snake_case".
    SnakeCase,
    /// "SCREAMING_SNAKE_CASE".
    ScreamingSnakeCase,
}

impl Default for RenameRule {
    fn default() -> (r: Self)
        ensures
            r == RenameRule::Unset,
    {
        RenameRule::Unset
    }
}

/// The rule a configuration name stands for, if it is one of the six names.
pub open spec fn rule_named(name: Seq<char>) -> Option<RenameRule> {
    if name == "lowercase"@ {
        Some(RenameRule::LowerCase)
    } else if name == "UPPERCASE"@ {
        Some(RenameRule::UpperCase)
    } else if name == "PascalCase"@ {
        Some(RenameRule::PascalCase)
    } else if name == "camelCase"@ {
        Some(RenameRule::CamelCase)
    } else if name == "snake_case"@ {
        Some(RenameRule::SnakeCase)
    } else if name == "SCREAMING_SNAKE_CASE"@ {
        Some(RenameRule::ScreamingSnakeCase)
    } else {
        None
    }
}

/// The predicate that keeps every character but the underscore.
pub open spec fn not_underscore() -> spec_fn(char) -> bool {
    |c: char| c != '_'
}

/// The text in which each character that opens a segment (the first one, and
/// each one that follows an underscore) is in upper case.
pub open spec fn capitalized_starts(s: Seq<char>) -> Seq<char> {
    Seq::new(
        s.len(),
        |i: int|
            if i == 0 || s[i - 1] == '_' {
                upper_char(s[i])
            } else {
                s[i]
            },
    )
}

/// Segments between underscores, each with its first character in upper
/// case, joined without the underscores.
pub open spec fn pascal_text(s: Seq<char>) -> Seq<char> {
    capitalized_starts(s).filter(not_underscore())
}

/// The text with only its first character in ASCII lower case.
pub open spec fn lower_first(s: Seq<char>) -> Seq<char> {
    Seq::new(
        s.len(),
        |i: int|
            if i == 0 {
                lower_char(s[i])
            } else {
                s[i]
            },
    )
}

/// The list of accepted names, as it appears in an error message.
pub open spec fn expected_names() -> Seq<char> {
    "\"lowercase\", \"UPPERCASE\", \"PascalCase\", \"camelCase\", \"snake_case\", \"SCREAMING_SNAKE_CASE\""@
}

/// The message for an unknown rule name, given the name as `Debug` prints it.
pub open spec fn unknown_rule_message(quoted: Seq<char>) -> Seq<char> {
    "unknown rename rule `rename = "@ + quoted + "`, expected one of "@ + expected_names()
}

impl RenameRule {
    /// The text a field name becomes under this rule.
    pub open spec fn applied(self, field: Seq<char>) -> Seq<char> {
        match self {
            RenameRule::Unset | RenameRule::SnakeCase => field,
            RenameRule::LowerCase => lower_text(field),
            RenameRule::UpperCase | RenameRule::ScreamingSnakeCase => upper_text(field),
            RenameRule::PascalCase => pascal_text(field),
            RenameRule::CamelCase => lower_first(pascal_text(field)),
        }
    }

    /// The first rule unless it is `Unset`, then the second.
    pub open spec fn or_spec(self, rule_b: Self) -> Self {
        if self == RenameRule::Unset {
            rule_b
        } else {
            self
        }
    }

    /// Reads one of the six configuration names; any other text is an error
    /// that carries it.
    pub fn from_str(rename_all_str: &str) -> (r: Result<Self, ParseError<'_>>)
        ensures
            match r {
                Ok(rule) => rule_named(rename_all_str@) == Some(rule),
                Err(e) => rule_named(rename_all_str@) is None && e@ == rename_all_str@,
            },
    {
        if *rename_all_str == *"lowercase" {
            Ok(RenameRule::LowerCase)
        } else if *rename_all_str == *"UPPERCASE" {
            Ok(RenameRule::UpperCase)
        } else if *rename_all_str == *"PascalCase" {
            Ok(RenameRule::PascalCase)
        } else if *rename_all_str == *"camelCase" {
            Ok(RenameRule::CamelCase)
        } else if *rename_all_str == *"snake_case" {
            Ok(RenameRule::SnakeCase)
        } else if *rename_all_str == *"SCREAMING_SNAKE_CASE" {
            Ok(RenameRule::ScreamingSnakeCase)
        } else {
            Err(ParseError { unknown: rename_all_str })
        }
    }

    /// Applies the rule to a field name.
    pub fn apply_to_field(self, field: &str) -> (r: String)
        ensures
            r@ == self.applied(field@),
    {
        match self {
            RenameRule::Unset | RenameRule::SnakeCase => field.to_owned(),
            RenameRule::LowerCase => to_lower_text(field),
            RenameRule::UpperCase | RenameRule::ScreamingSnakeCase => to_upper_text(field),
            RenameRule::PascalCase => pascal_case(field),
            RenameRule::CamelCase => {
                let pascal = pascal_case(field);
                let mut camel = String::new();
                for ch in it: pascal.as_str().chars()
                    invariant
                        it.seq() == pascal@,
                        camel@ =~= lower_first(pascal@).take(it.index() as int),
                {
                    if camel.as_str().is_empty() {
                        camel.push(to_lower(ch));
                    } else {
                        camel.push(ch);
                    }
                }
                camel
            },
        }
    }

    /// The first rule unless it is `Unset`, then the second.
    pub fn or(self, rule_b: Self) -> (r: Self)
        ensures
            r == self.or_spec(rule_b),
    {
        match self {
            RenameRule::Unset => rule_b,
            _ => self,
        }
    }
}

/// Segments between underscores, each capitalised, joined.
fn pascal_case(field: &str) -> (r: String)
    ensures
        r@ == pascal_text(field@),
{
    let mut pascal = String::new();
    let mut capitalize = true;
    for ch in it: field.chars()
        invariant
            it.seq() == field@,
            capitalize == (it.index() == 0 || field@[it.index() - 1] == '_'),
            pascal@ == capitalized_starts(field@).take(it.index() as int).filter(not_underscore()),
    {
        let ghost marked = capitalized_starts(field@);
        let ghost done = marked.take(it.index() as int);
        proof {
            assert(marked.take(it.index() + 1) =~= done.push(marked[it.index() as int]));
            done.lemma_filter_push(marked[it.index() as int], not_underscore());
        }
        if ch == '_' {
            capitalize = true;
        } else if capitalize {
            pascal.push(to_upper(ch));
            capitalize = false;
        } else {
            pascal.push(ch);
        }
    }
    proof {
        let marked = capitalized_starts(field@);
        assert(marked.take(field@.len() as int) =~= marked);
    }
    pascal
}

/// A rule name that is none of the six.
pub struct ParseError<'a> {
    unknown: &'a str,
}

impl<'a> View for ParseError<'a> {
    type V = Seq<char>;

    closed spec fn view(&self) -> Seq<char> {
        self.unknown@
    }
}

impl<'a> ParseError<'a> {
    /// The name that was not recognised.
    pub fn unknown(&self) -> (r: &'a str)
        ensures
            r@ == self@,
    {
        self.unknown
    }

    /// The message for this error, given the unknown name between quotes.
    pub fn message_with(quoted: &str) -> (r: String)
        ensures
            r@ == unknown_rule_message(quoted@),
    {
        let mut out = String::from_str("unknown rename rule `rename = ");
        out.append(quoted);
        out.append("`, expected one of ");
        out.append(
            "\"lowercase\", \"UPPERCASE\", \"PascalCase\", \"camelCase\", \"snake_case\", \"SCREAMING_SNAKE_CASE\"",
        );
        out
    }

    /// The message: the unknown name as `Debug` prints it, then the six
    /// accepted names.
    pub fn message(&self) -> (r: String)
        ensures
            r@ == unknown_rule_message(debug_text(self@)),
    {
        let quoted = debug_string(self.unknown);
        Self::message_with(quoted.as_str())
    }
}

} // verus!
