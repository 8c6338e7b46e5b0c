//! Block formats for printing several named values at once.
use vstd::prelude::*;

use crate::cli::Command;
use crate::text::{lines_of, split_lines, underscored, underscored_spec, views};

verus! {

/// The escape sequence that turns the foreground green.
pub open spec fn green_code() -> Seq<char> {
    seq!['\x1b', '[', '3', '2', 'm']
}

/// The escape sequence that resets all styling.
pub open spec fn reset_code() -> Seq<char> {
    seq!['\x1b', '[', '0', 'm']
}

/// Relies on `anstyle::Style::render`: a style whose only setting is the
/// green foreground renders as `ESC [32m`.
#[verifier::external_body]
fn green_style() -> (r: String)
    ensures
        r@ == green_code(),
{
    anstyle::Style::new().fg_color(Some(anstyle::AnsiColor::Green.into())).render().to_string()
}

/// Relies on `anstyle::Style::render_reset`: for any style other than the
/// plain one it renders the reset code `ESC [0m`.
#[verifier::external_body]
fn green_style_reset() -> (r: String)
    ensures
        r@ == reset_code(),
{
    anstyle::Style::new().fg_color(Some(anstyle::AnsiColor::Green.into())).render_reset().to_string()
}

/// Each line indented and marked with `|>`, on a line of its own.
pub open spec fn marked_lines(lines: Seq<Seq<char>>) -> Seq<char>
    decreases lines.len(),
{
    if lines.len() == 0 {
        Seq::empty()
    } else {
        marked_lines(lines.drop_last()) + "  |>  "@ + lines.last() + "\n"@
    }
}

/// How a batch of named values is printed.
#[derive(Debug, Clone, Copy, PartialEq, Eq)]
pub enum OutputFormat {
    /// `name<<EOF`, the value, `EOF`: the multi-line form of an
    /// environment file.
    GithubAction,
    /// The name in green, then each line of the value indented.
    Pretty,
}

impl Command {
    /// The name a field is printed under in a batch: its path with `_` for `.`.
    pub open spec fn key_spec(&self) -> Seq<char> {
        underscored_spec(self.path_spec()@)
    }

    /// The name a field is printed under in a batch.
    pub fn key(&self) -> (r: String)
        ensures
            r@ == self.key_spec(),
    {
        underscored(self.path())
    }
}

impl OutputFormat {
    /// Each of `lines` indented and marked with `|>`, on a line of its own.
    pub fn marked(lines: &Vec<String>) -> (r: String)
        ensures
            r@ == marked_lines(views(lines@)),
    {
        let mut body = String::new();
        let mut i: usize = 0;
        while i < lines.len()
            invariant
                i <= lines@.len(),
                body@ == marked_lines(views(lines@.subrange(0, i as int))),
            decreases lines.len() - i,
        {
            body.append("  |>  ");
            body.append(lines[i].as_str());
            body.append("\n");
            proof {
                let next = views(lines@.subrange(0, i + 1));
                assert(next.drop_last() =~= views(lines@.subrange(0, i as int)));
            }
            i += 1;
        }
        proof {
            assert(lines@.subrange(0, lines@.len() as int) =~= lines@);
        }
        body
    }

    /// The blocks for each `(field, value)` pair, one after the other.
    pub open spec fn batch_spec(&self, pairs: Seq<(Command, String)>) -> Seq<char>
        decreases pairs.len(),
    {
        if pairs.len() == 0 {
            Seq::empty()
        } else {
            self.batch_spec(pairs.drop_last()) + self.pair_spec(
                pairs.last().0.key_spec(),
                pairs.last().1@,
            )
        }
    }

    /// The blocks for each `(field, value)` pair, in order.
    pub fn format_batch(&self, pairs: &Vec<(Command, String)>) -> (r: String)
        ensures
            r@ == self.batch_spec(pairs@),
    {
        let mut out = String::new();
        let mut i: usize = 0;
        while i < pairs.len()
            invariant
                i <= pairs@.len(),
                out@ == self.batch_spec(pairs@.subrange(0, i as int)),
            decreases pairs.len() - i,
        {
            let block = self.format_pair(&pairs[i].0, pairs[i].1.as_str());
            out.append(block.as_str());
            proof {
                assert(pairs@.subrange(0, i + 1).drop_last() =~= pairs@.subrange(0, i as int));
            }
            i += 1;
        }
        proof {
            assert(pairs@.subrange(0, pairs@.len() as int) =~= pairs@);
        }
        out
    }

    /// The block printed for the value `value` of the field named `key`.
    pub open spec fn pair_spec(&self, key: Seq<char>, value: Seq<char>) -> Seq<char> {
        match self {
            OutputFormat::GithubAction => key + "<<EOF\n"@ + value + "\nEOF\n"@,
            OutputFormat::Pretty => "\n  "@ + green_code() + key + reset_code() + "\n"@
                + marked_lines(lines_of(value)),
        }
    }

    /// The block printed for the value `value` of field `cmd`.
    pub fn format_pair(&self, cmd: &Command, value: &str) -> (r: String)
        ensures
            r@ == self.pair_spec(cmd.key_spec(), value@),
    {
        let key = cmd.key();
        match self {
            OutputFormat::GithubAction => {
                let mut r = key;
                r.append("<<EOF\n");
                r.append(value);
                r.append("\nEOF\n");
                r
            },
            OutputFormat::Pretty => {
                let lines = split_lines(value);
                let body = Self::marked(&lines);
                let mut r = String::from_str("\n  ");
                r.append(green_style().as_str());
                r.append(key.as_str());
                r.append(green_style_reset().as_str());
                r.append("\n");
                r.append(body.as_str());
                r
            },
        }
    }
}

} // verus!
