//! A parse tree written out, one pair to a line, for reading by eye.

use crate::parse::Pair;
use crate::runtime::closure::{lemma_names_push, names_view};
use crate::text::{escape_newlines, escaped, repeat, repeated, same_text};
use vstd::prelude::*;
use vstd::string::StringExecFns;

verus! {

/// How many pairs a line stands for.
#[derive(Debug, Clone, Copy, PartialEq, Eq, Structural)]
pub enum Chain {
    One,
    Two,
    Many,
}

impl Chain {
    /// The chain with one more pair.
    pub open spec fn longer_spec(self) -> Chain {
        match self {
            Chain::One => Chain::Two,
            _ => Chain::Many,
        }
    }

    /// The chain with one more pair.
    #[verifier::when_used_as_spec(longer_spec)]
    pub fn longer(self) -> (r: Chain)
        ensures
            r == self.longer_spec(),
    {
        match self {
            Chain::One => Chain::Two,
            _ => Chain::Many,
        }
    }
}

/// Whether a pair only wraps one pair that matched the same text.
pub open spec fn wraps(pair: Pair) -> bool {
    pair.inner.len() == 1 && pair.inner[0].source@ == pair.source@
}

/// The depth of indentation one level further in. It stops growing at
/// the largest number.
pub open spec fn deeper(indent: usize) -> usize {
    if indent < usize::MAX {
        (indent + 1) as usize
    } else {
        indent
    }
}

/// The line that shows a chain of pairs that matched the same text: the
/// indentation, the rule of the first pair, the rule of the last pair if
/// there are more, with dots before it if there are more than two, and the
/// text between quotes with its line breaks written out.
pub open spec fn line(first: Pair, last: Pair, chain: Chain, indent: usize) -> Seq<char> {
    let rules = match chain {
        Chain::One => first.rule.name_text(),
        Chain::Two => first.rule.name_text() + " > "@ + last.rule.name_text(),
        Chain::Many => first.rule.name_text() + " > .. > "@ + last.rule.name_text(),
    };
    repeated(". "@, indent as nat) + rules + " '"@ + escaped(first.source@) + "'"@
}

/// The lines that show a pair which is the last of a chain that began
/// with `first`: one line for the chain, which goes on as long as a pair
/// only wraps one pair that matched the same text, and then the lines of
/// what the last pair of the chain matched inside, indented one level
/// further.
pub open spec fn lines_from(first: Pair, current: Pair, chain: Chain, indent: usize) -> Seq<
    Seq<char>,
>
    decreases current, 1nat, 0nat,
{
    if wraps(current) {
        lines_from(first, current.inner[0], chain.longer(), indent)
    } else {
        seq![line(first, current, chain, indent)] + inner_lines(current, 0, deeper(indent))
    }
}

/// The lines that show what a pair matched inside, from place `i` on.
pub open spec fn inner_lines(pair: Pair, i: nat, indent: usize) -> Seq<Seq<char>>
    decreases pair, 0nat, pair.inner.len() - i,
{
    if i >= pair.inner.len() {
        Seq::empty()
    } else {
        lines(pair.inner[i as int], indent) + inner_lines(pair, i + 1, indent)
    }
}

/// The lines that show a pair.
pub open spec fn lines(pair: Pair, indent: usize) -> Seq<Seq<char>>
    decreases pair, 2nat, 0nat,
{
    lines_from(pair, pair, Chain::One, indent)
}

fn write_line(first: &Pair, last: &Pair, chain: Chain, indent: usize) -> (r: String)
    ensures
        r@ == line(*first, *last, chain, indent),
{
    let mut r = repeat(". ", indent);
    r.append(first.rule.name());
    match chain {
        Chain::One => {},
        Chain::Two => {
            r.append(" > ");
            r.append(last.rule.name());
        },
        Chain::Many => {
            r.append(" > .. > ");
            r.append(last.rule.name());
        },
    }
    r.append(" '");
    r.append(escape_newlines(first.source.as_str()).as_str());
    r.append("'");
    proof {
        let start = repeated(". "@, indent as nat);
        let a = first.rule.name_text();
        let b = last.rule.name_text();
        assert(start + a + " > "@ + b =~= start + (a + " > "@ + b));
        assert(start + a + " > .. > "@ + b =~= start + (a + " > .. > "@ + b));
    }
    r
}

fn write_from(first: &Pair, current: &Pair, chain: Chain, indent: usize, out: &mut Vec<String>)
    ensures
        names_view(final(out)@) == names_view(old(out)@) + lines_from(
            *first,
            *current,
            chain,
            indent,
        ),
    decreases current, 1nat,
{
    if current.inner.len() == 1 && same_text(
        current.inner[0].source.as_str(),
        current.source.as_str(),
    ) {
        write_from(first, &current.inner[0], chain.longer(), indent, out);
        return ;
    }
    let ghost start = names_view(out@);
    let text = write_line(first, current, chain, indent);
    proof {
        lemma_names_push(out@, text);
    }
    out.push(text);
    let deeper = if indent < usize::MAX {
        indent + 1
    } else {
        indent
    };
    let ghost head = names_view(out@);
    let mut i: usize = 0;
    while i < current.inner.len()
        invariant
            i <= current.inner.len(),
            names_view(out@) + inner_lines(*current, i as nat, deeper) == head + inner_lines(
                *current,
                0,
                deeper,
            ),
        decreases current.inner.len() - i,
    {
        let ghost before = names_view(out@);
        write_from(&current.inner[i], &current.inner[i], Chain::One, deeper, out);
        proof {
            let here = lines(current.inner[i as int], deeper);
            let rest = inner_lines(*current, (i + 1) as nat, deeper);
            assert((before + here) + rest =~= before + (here + rest));
        }
        i = i + 1;
    }
    proof {
        let shown = seq![line(*first, *current, chain, indent)];
        let rest = inner_lines(*current, 0, deeper);
        assert(names_view(out@) + Seq::<Seq<char>>::empty() =~= names_view(out@));
        assert((start + shown) + rest =~= start + (shown + rest));
    }
}

/// Writes a pair out, one pair to a line, each line indented by its depth
/// in the tree. A chain of pairs that matched the same text is shown on one
/// line, by the rules of its first and its last pair.
pub fn pretty_pair_lines(pair: &Pair) -> (r: Vec<String>)
    ensures
        names_view(r@) == lines(*pair, 0),
{
    let mut out: Vec<String> = Vec::new();
    proof {
        assert(names_view(out@) =~= Seq::<Seq<char>>::empty());
    }
    write_from(pair, pair, Chain::One, 0, &mut out);
    proof {
        assert(Seq::<Seq<char>>::empty() + lines(*pair, 0) =~= lines(*pair, 0));
    }
    out
}

} // verus!
