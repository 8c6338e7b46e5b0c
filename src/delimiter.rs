//! The separator placed between the values of a list-valued field.
use vstd::prelude::*;

use crate::text::{lower_of, lowercase, same_text};

verus! {

/// Separator between the entries of a list-valued field.
#[derive(Debug, PartialEq, Eq, Clone)]
pub enum Delimiter {
    Tab,
    Cr,
    Lf,
    CrLf,
    String(String),
}

impl Delimiter {
    /// The characters this delimiter stands for.
    pub open spec fn text(&self) -> Seq<char> {
        match self {
            Delimiter::Tab => seq!['\t'],
            Delimiter::Cr => seq!['\r'],
            Delimiter::Lf => seq!['\n'],
            Delimiter::CrLf => seq!['\r', '\n'],
            Delimiter::String(s) => s@,
        }
    }

    /// `self` is what the token `token`, whose lowercase form is `lowered`,
    /// names: one of the keywords `tab`, `cr`, `lf`, `crlf`, or else the
    /// token itself, unchanged.
    pub open spec fn parsed_from(&self, lowered: Seq<char>, token: Seq<char>) -> bool {
        if lowered == seq!['t', 'a', 'b'] {
            *self is Tab
        } else if lowered == seq!['c', 'r'] {
            *self is Cr
        } else if lowered == seq!['l', 'f'] {
            *self is Lf
        } else if lowered == seq!['c', 'r', 'l', 'f'] {
            *self is CrLf
        } else {
            match self {
                Delimiter::String(s) => s@ == token,
                _ => false,
            }
        }
    }

    /// The delimiter named by `token`, given its lowercase form `lowered`.
    pub fn from_lowered(lowered: &str, token: &str) -> (r: Delimiter)
        ensures
            r.parsed_from(lowered@, token@),
    {
        proof {
            reveal_strlit("tab");
            reveal_strlit("cr");
            reveal_strlit("lf");
            reveal_strlit("crlf");
            assert("tab"@ =~= seq!['t', 'a', 'b']);
            assert("cr"@ =~= seq!['c', 'r']);
            assert("lf"@ =~= seq!['l', 'f']);
            assert("crlf"@ =~= seq!['c', 'r', 'l', 'f']);
        }
        if same_text(lowered, "tab") {
            Delimiter::Tab
        } else if same_text(lowered, "cr") {
            Delimiter::Cr
        } else if same_text(lowered, "lf") {
            Delimiter::Lf
        } else if same_text(lowered, "crlf") {
            Delimiter::CrLf
        } else {
            Delimiter::String(token.to_owned())
        }
    }

    /// The delimiter named by `token`; keywords are matched without regard
    /// to case, any other token is taken literally.
    pub fn parse(token: &str) -> (r: Delimiter)
        ensures
            r.parsed_from(lower_of(token@), token@),
    {
        let lowered = lowercase(token);
        Self::from_lowered(lowered.as_str(), token)
    }

    /// The characters this delimiter stands for, as a string.
    pub fn to_string(&self) -> (r: String)
        ensures
            r@ == self.text(),
    {
        match self {
            Delimiter::Tab => {
                proof { reveal_strlit("\t"); }
                String::from_str("\t")
            },
            Delimiter::Cr => {
                proof { reveal_strlit("\r"); }
                String::from_str("\r")
            },
            Delimiter::Lf => {
                proof { reveal_strlit("\n"); }
                String::from_str("\n")
            },
            Delimiter::CrLf => {
                proof { reveal_strlit("\r\n"); }
                String::from_str("\r\n")
            },
            Delimiter::String(s) => s.clone(),
        }
    }
}

impl Default for Delimiter {
    fn default() -> (r: Delimiter)
        ensures
            r is CrLf,
    {
        Delimiter::CrLf
    }
}

impl std::str::FromStr for Delimiter {
    type Err = std::convert::Infallible;

    fn from_str(s: &str) -> (r: Result<Delimiter, std::convert::Infallible>)
        ensures
            r is Ok && r->Ok_0.parsed_from(lower_of(s@), s@),
    {
        Ok(Delimiter::parse(s))
    }
}

} // verus!
