use vstd::prelude::*;

use crate::location::{decimal, push_decimal, StaticLocationRef};

verus! {

/// What an error node was caused by.
pub enum Cause {
    /// Nothing: the node is the root cause of its chain.
    Absent,
    /// Another node, which carries its own location.
    Located(Box<ErrorNode>),
    /// An error that carries no location, known by its display text.
    Foreign(String),
}

/// One link of an error chain: a display text, the location at which the link
/// was made, and what caused it.
pub struct ErrorNode {
    message: String,
    location: StaticLocationRef,
    cause: Cause,
}

/// One line of a rendered chain: `index: message, at location`.
pub open spec fn line_text(index: nat, message: Seq<char>, location: Seq<char>) -> Seq<char> {
    decimal(index) + seq![':', ' '] + message + seq![',', ' ', 'a', 't', ' '] + location
}

/// The text of each string.
pub open spec fn texts(v: Seq<String>) -> Seq<Seq<char>> {
    v.map_values(|l: String| l@)
}

/// The lines, each followed by a line break.
pub open spec fn terminated(lines: Seq<Seq<char>>) -> Seq<char>
    decreases lines.len(),
{
    if lines.len() == 0 {
        Seq::empty()
    } else {
        terminated(lines.drop_last()) + lines.last() + seq!['\n']
    }
}

impl ErrorNode {
    /// The text that this node displays.
    pub closed spec fn spec_message(&self) -> Seq<char> {
        self.message@
    }

    /// The location at which this node was made.
    pub closed spec fn spec_location(&self) -> StaticLocationRef {
        self.location
    }

    /// The located links of the chain that starts here, outermost first: each
    /// one's display text and location.
    pub closed spec fn links(&self) -> Seq<(Seq<char>, StaticLocationRef)>
        decreases self,
    {
        let head = seq![(self.message@, self.location)];
        match self.cause {
            Cause::Located(c) => head + c.links(),
            _ => head,
        }
    }

    /// The display text of the foreign error that ends the chain, if one does.
    pub closed spec fn foreign_tail(&self) -> Option<Seq<char>>
        decreases self,
    {
        match self.cause {
            Cause::Absent => None,
            Cause::Located(c) => c.foreign_tail(),
            Cause::Foreign(t) => Some(t@),
        }
    }

    /// The number of links of the chain, the foreign one at its end included.
    pub open spec fn chain_len(&self) -> nat {
        self.links().len() + if self.foreign_tail() is Some {
            1nat
        } else {
            0nat
        }
    }

    /// The lines that render the chain: one per located link, numbered from
    /// `chain_len() - 1` down, then the foreign error's text if there is one.
    pub open spec fn lines(&self) -> Seq<Seq<char>> {
        let links = self.links();
        let n = self.chain_len();
        let located = Seq::new(
            links.len(),
            |i: int| line_text((n - 1 - i) as nat, links[i].0, links[i].1.text()),
        );
        match self.foreign_tail() {
            Some(t) => located.push(t),
            None => located,
        }
    }

    /// A node that ends its chain.
    pub fn leaf(message: &str, location: StaticLocationRef) -> (r: ErrorNode)
        ensures
            r.links() == seq![(message@, location)],
            r.foreign_tail() is None,
    {
        ErrorNode { message: message.to_owned(), location, cause: Cause::Absent }
    }

    /// A node made where `cause` was passed on.
    pub fn wrap(cause: ErrorNode, message: &str, location: StaticLocationRef) -> (r: ErrorNode)
        ensures
            r.links() == seq![(message@, location)] + cause.links(),
            r.foreign_tail() == cause.foreign_tail(),
    {
        ErrorNode { message: message.to_owned(), location, cause: Cause::Located(Box::new(cause)) }
    }

    /// A node made where a foreign error, shown as `foreign`, was passed on.
    pub fn wrap_foreign(foreign: &str, message: &str, location: StaticLocationRef) -> (r:
        ErrorNode)
        ensures
            r.links() == seq![(message@, location)],
            r.foreign_tail() == Some(foreign@),
    {
        ErrorNode {
            message: message.to_owned(),
            location,
            cause: Cause::Foreign(foreign.to_owned()),
        }
    }

    /// The text that this node displays.
    pub fn message(&self) -> (r: &str)
        ensures
            r@ == self.spec_message(),
    {
        self.message.as_str()
    }

    /// The location at which this node was made.
    pub fn location(&self) -> (r: &StaticLocationRef)
        ensures
            *r == self.spec_location(),
    {
        &self.location
    }

    /// What caused this node.
    pub fn cause(&self) -> (r: &Cause)
        ensures
            match *r {
                Cause::Absent => self.links() == seq![(self.spec_message(), self.spec_location())]
                    && self.foreign_tail() is None,
                Cause::Located(c) => self.links() == seq![(self.spec_message(), self.spec_location())]
                    + c.links() && self.foreign_tail() == c.foreign_tail(),
                Cause::Foreign(t) => self.links() == seq![(self.spec_message(), self.spec_location())]
                    && self.foreign_tail() == Some(t@),
            },
    {
        proof {
            reveal_with_fuel(ErrorNode::links, 1);
            reveal_with_fuel(ErrorNode::foreign_tail, 1);
        }
        &self.cause
    }

    /// The nodes of the chain's located links, outermost first.
    fn located_nodes(&self) -> (r: Vec<&ErrorNode>)
        ensures
            r@.len() == self.links().len(),
            r@.last().foreign_tail() == self.foreign_tail(),
            !(r@.last().cause is Located),
            forall|j: int|
                0 <= j < r@.len() ==> (#[trigger] r@[j]).spec_message() == self.links()[j].0
                    && r@[j].spec_location() == self.links()[j].1,
    {
        let mut nodes: Vec<&ErrorNode> = Vec::new();
        let mut cur: &ErrorNode = self;
        loop
            invariant_except_break
                self.links() == nodes@.map_values(
                    |n: &ErrorNode| (n.spec_message(), n.spec_location()),
                ) + cur.links(),
                cur.foreign_tail() == self.foreign_tail(),
            ensures
                nodes@.len() > 0,
                nodes@.last().foreign_tail() == self.foreign_tail(),
                !(nodes@.last().cause is Located),
                self.links() == nodes@.map_values(
                    |n: &ErrorNode| (n.spec_message(), n.spec_location()),
                ),
            decreases cur.links().len(),
        {
            let ghost before = nodes@;
            nodes.push(cur);
            proof {
                reveal_with_fuel(ErrorNode::links, 1);
                reveal_with_fuel(ErrorNode::foreign_tail, 1);
            }
            match &cur.cause {
                Cause::Located(c) => {
                    assert(cur.links() == seq![(cur.spec_message(), cur.spec_location())]
                        + c.links());
                    assert(nodes@.map_values(|n: &ErrorNode| (n.spec_message(), n.spec_location()))
                        =~= before.map_values(|n: &ErrorNode| (n.spec_message(), n.spec_location()))
                        + seq![(cur.spec_message(), cur.spec_location())]);
                    cur = c;
                },
                _ => {
                    assert(nodes@.map_values(|n: &ErrorNode| (n.spec_message(), n.spec_location()))
                        =~= before.map_values(|n: &ErrorNode| (n.spec_message(), n.spec_location()))
                        + cur.links());
                    break ;
                },
            }
        }
        proof {
            assert forall|j: int| 0 <= j < nodes@.len() implies (#[trigger] nodes@[j]).spec_message()
                == self.links()[j].0 && nodes@[j].spec_location() == self.links()[j].1 by {
                let f = |n: &ErrorNode| (n.spec_message(), n.spec_location());
                assert(self.links()[j] == f(nodes@[j]));
            }
        }
        nodes
    }

    /// Appends the line `index: message, at location` of this node to `out`.
    fn write_line(&self, index: usize, out: &mut String)
        ensures
            final(out)@ == old(out)@ + line_text(
                index as nat,
                self.spec_message(),
                self.spec_location().text(),
            ),
    {
        push_decimal(out, index);
        proof {
            reveal_strlit(": ");
            reveal_strlit(", at ");
        }
        out.append(": ");
        out.append(self.message.as_str());
        out.append(", at ");
        self.location.write_to(out);
        assert(final(out)@ =~= old(out)@ + line_text(
            index as nat,
            self.spec_message(),
            self.spec_location().text(),
        ));
    }

    /// The lines that render the chain that starts at this node.
    pub fn render_lines(&self) -> (r: Vec<String>)
        ensures
            texts(r@) == self.lines(),
    {
        let nodes = self.located_nodes();
        let last = nodes[nodes.len() - 1];
        let foreign: Option<&String> = match &last.cause {
            Cause::Foreign(t) => Some(t),
            _ => None,
        };
        proof {
            reveal_with_fuel(ErrorNode::foreign_tail, 1);
        }
        let extra: bool = foreign.is_some();
        assert(last == nodes@.last());
        assert(match self.foreign_tail() {
            Some(t) => foreign is Some && foreign.unwrap()@ == t,
            None => foreign is None,
        });
        let ghost links = self.links();
        let ghost n = self.chain_len();
        let ghost located = Seq::new(
            links.len(),
            |i: int| line_text((n - 1 - i) as nat, links[i].0, links[i].1.text()),
        );
        let mut out: Vec<String> = Vec::new();
        let mut i: usize = 0;
        while i < nodes.len()
            invariant
                i <= nodes@.len(),
                nodes@.len() == links.len(),
                links == self.links(),
                n == self.chain_len(),
                located.len() == links.len(),
                forall|j: int|
                    0 <= j < links.len() ==> #[trigger] located[j] == line_text(
                        (n - 1 - j) as nat,
                        links[j].0,
                        links[j].1.text(),
                    ),
                n == links.len() + if extra { 1nat } else { 0nat },
                forall|j: int|
                    0 <= j < nodes@.len() ==> (#[trigger] nodes@[j]).spec_message() == links[j].0
                        && nodes@[j].spec_location() == links[j].1,
                texts(out@) == located.take(i as int),
            decreases nodes@.len() - i,
        {
            let index: usize = if extra {
                nodes.len() - i
            } else {
                nodes.len() - 1 - i
            };
            let mut line = String::new();
            nodes[i].write_line(index, &mut line);
            let ghost before = out@;
            let ghost line_view = line@;
            assert(located[i as int] == line_view);
            out.push(line);
            proof {
                assert(texts(before).len() == i);
                assert(out@.len() == i + 1);
                assert(out@[i as int]@ == line_view);
                assert(texts(out@).len() == i + 1);
                assert forall|k: int| 0 <= k < i + 1 implies #[trigger] texts(out@)[k]
                    == located.take(i + 1)[k] by {
                    if k < i {
                        assert(texts(before)[k] == located.take(i as int)[k]);
                    }
                }
            }
            assert(texts(out@) =~= located.take(i + 1));
            i = i + 1;
        }
        assert(located.take(i as int) =~= located);
        let ghost before = out@;
        if let Some(t) = foreign {
            out.push(t.clone());
            assert(texts(out@) =~= texts(before).push(t@));
        }
        assert(texts(out@) =~= self.lines());
        out
    }

    /// The chain that starts at this node as text: its lines, each followed by
    /// a line break.
    pub fn render_chain(&self) -> (r: String)
        ensures
            r@ == terminated(self.lines()),
    {
        let lines = self.render_lines();
        let mut out = String::new();
        let mut i: usize = 0;
        while i < lines.len()
            invariant
                i <= lines@.len(),
                texts(lines@) == self.lines(),
                out@ == terminated(self.lines().take(i as int)),
            decreases lines@.len() - i,
        {
            let ghost before = out@;
            proof {
                reveal_strlit("\n");
            }
            out.append(lines[i].as_str());
            out.append("\n");
            proof {
                let ls = self.lines().take(i + 1);
                assert(ls.drop_last() =~= self.lines().take(i as int));
                assert(ls.last() == lines@[i as int]@);
                assert(terminated(ls) == terminated(ls.drop_last()) + ls.last() + seq!['\n']);
                assert(out@ =~= before + lines@[i as int]@ + seq!['\n']);
            }
            i = i + 1;
        }
        assert(self.lines().take(i as int) =~= self.lines());
        out
    }
}

} // verus!
