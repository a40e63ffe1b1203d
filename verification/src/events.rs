//! The events of one block, as they came from the node.

use vstd::prelude::*;
use vstd::string::StringExecFns;

verus! {

/// The raw event records of one block, in the node's order. Each record is
/// the JSON text of one event; a block may have none.
#[derive(Clone, Debug, PartialEq, Eq)]
pub struct BlockEvents {
    /// One JSON text per event.
    pub records: Vec<String>,
}

/// The texts of `items`, in order.
pub open spec fn texts(items: Seq<String>) -> Seq<Seq<char>> {
    Seq::new(items.len(), |i: int| items[i]@)
}

impl View for BlockEvents {
    type V = Seq<Seq<char>>;

    open spec fn view(&self) -> Seq<Seq<char>> {
        texts(self.records@)
    }
}

/// The records one after the other, with a comma between neighbours.
pub open spec fn joined(records: Seq<Seq<char>>) -> Seq<char>
    decreases records.len(),
{
    if records.len() == 0 {
        Seq::empty()
    } else if records.len() == 1 {
        records[0]
    } else {
        joined(records.drop_last()) + seq![','] + records.last()
    }
}

/// The records as the text of one JSON array.
pub open spec fn array_text(records: Seq<Seq<char>>) -> Seq<char> {
    seq!['['] + joined(records) + seq![']']
}

/// Appends `items` as the text of one JSON array: between brackets, with a
/// comma between neighbours.
pub fn push_array(out: &mut String, items: &Vec<String>)
    ensures
        final(out)@ == old(out)@ + array_text(texts(items@)),
{
    proof {
        reveal_strlit("[");
        reveal_strlit("]");
        reveal_strlit(",");
    }
    let ghost all = texts(items@);
    out.append("[");
    let mut i: usize = 0;
    while i < items.len()
        invariant
            i <= items.len(),
            all == texts(items@),
            out@ == old(out)@ + seq!['['] + joined(all.take(i as int)),
            ","@ == seq![','],
        decreases items.len() - i,
    {
        if i > 0 {
            out.append(",");
        }
        out.append(items[i].as_str());
        proof {
            assert(all.take(i + 1).drop_last() =~= all.take(i as int));
            assert(out@ =~= old(out)@ + seq!['['] + joined(all.take(i + 1)));
        }
        i = i + 1;
    }
    out.append("]");
    proof {
        assert(all.take(i as int) =~= all);
        assert(out@ =~= old(out)@ + array_text(all));
    }
}

impl BlockEvents {
    /// The events of a block without events.
    pub fn empty() -> (events: BlockEvents)
        ensures
            events@ == Seq::<Seq<char>>::empty(),
    {
        BlockEvents { records: Vec::new() }
    }

    /// How many events the block has.
    pub fn len(&self) -> (n: usize)
        ensures
            n == self@.len(),
    {
        self.records.len()
    }

    /// Whether the block has no event.
    pub fn is_empty(&self) -> (none: bool)
        ensures
            none == (self@.len() == 0),
    {
        self.records.len() == 0
    }

    /// The payload of the block's stream record: the events as one JSON
    /// array, in order.
    pub fn to_json(&self) -> (text: String)
        ensures
            text@ == array_text(self@),
    {
        let mut text = String::new();
        push_array(&mut text, &self.records);
        text
    }
}

} // verus!
