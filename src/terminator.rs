//! The characters appended once at the very end of the output.
use vstd::prelude::*;

use crate::text::{lower_of, lowercase, same_text};

verus! {

/// Characters written once after the whole output.
#[derive(Debug, PartialEq, Eq, Clone)]
pub enum Terminator {
    Cr,
    CrLf,
    Lf,
    Nul,
    String(String),
}

impl Terminator {
    /// The characters this terminator stands for.
    pub open spec fn text(&self) -> Seq<char> {
        match self {
            Terminator::Cr => seq!['\r'],
            Terminator::CrLf => seq!['\r', '\n'],
            Terminator::Lf => seq!['\n'],
            Terminator::Nul => seq!['\0'],
            Terminator::String(s) => s@,
        }
    }

    /// `self` is what the token `token`, whose lowercase form is `lowered`,
    /// names: one of the keywords `cr`, `crlf`, `lf`, `nul`, or else the
    /// token itself, unchanged.
    pub open spec fn parsed_from(&self, lowered: Seq<char>, token: Seq<char>) -> bool {
        if lowered == seq!['c', 'r'] {
            *self is Cr
        } else if lowered == seq!['c', 'r', 'l', 'f'] {
            *self is CrLf
        } else if lowered == seq!['l', 'f'] {
            *self is Lf
        } else if lowered == seq!['n', 'u', 'l'] {
            *self is Nul
        } else {
            match self {
                Terminator::String(s) => s@ == token,
                _ => false,
            }
        }
    }

    /// The terminator named by `token`, given its lowercase form `lowered`.
    pub fn from_lowered(lowered: &str, token: &str) -> (r: Terminator)
        ensures
            r.parsed_from(lowered@, token@),
    {
        proof {
            reveal_strlit("cr");
            reveal_strlit("crlf");
            reveal_strlit("lf");
            reveal_strlit("nul");
            assert("cr"@ =~= seq!['c', 'r']);
            assert("crlf"@ =~= seq!['c', 'r', 'l', 'f']);
            assert("lf"@ =~= seq!['l', 'f']);
            assert("nul"@ =~= seq!['n', 'u', 'l']);
        }
        if same_text(lowered, "cr") {
            Terminator::Cr
        } else if same_text(lowered, "crlf") {
            Terminator::CrLf
        } else if same_text(lowered, "lf") {
            Terminator::Lf
        } else if same_text(lowered, "nul") {
            Terminator::Nul
        } else {
            Terminator::String(token.to_owned())
        }
    }

    /// The terminator named by `token`; keywords are matched without regard
    /// to case, any other token is taken literally.
    pub fn parse(token: &str) -> (r: Terminator)
        ensures
            r.parsed_from(lower_of(token@), token@),
    {
        let lowered = lowercase(token);
        Self::from_lowered(lowered.as_str(), token)
    }

    /// The characters this terminator stands for, as a string.
    pub fn to_string(&self) -> (r: String)
        ensures
            r@ == self.text(),
    {
        match self {
            Terminator::Cr => {
                proof { reveal_strlit("\r"); }
                String::from_str("\r")
            },
            Terminator::CrLf => {
                proof { reveal_strlit("\r\n"); }
                String::from_str("\r\n")
            },
            Terminator::Lf => {
                proof { reveal_strlit("\n"); }
                String::from_str("\n")
            },
            Terminator::Nul => {
                proof { reveal_strlit("\0"); }
                String::from_str("\0")
            },
            Terminator::String(s) => s.clone(),
        }
    }
}

impl Default for Terminator {
    fn default() -> (r: Terminator)
        ensures
            r is Lf,
    {
        Terminator::Lf
    }
}

impl std::str::FromStr for Terminator {
    type Err = std::convert::Infallible;

    fn from_str(s: &str) -> (r: Result<Terminator, std::convert::Infallible>)
        ensures
            r is Ok && r->Ok_0.parsed_from(lower_of(s@), s@),
    {
        Ok(Terminator::parse(s))
    }
}

} // verus!
