use vstd::prelude::*;

verus! {

/// One link of the chain: a value and the exclusively owned rest of the list.
pub struct Node {
    value: i32,
    next: Option<Box<Node>>,
}

/// A singly linked list that owns its chain of nodes through `head`.
///
/// Every node is reached from `head` by exactly one path, and the chain ends:
/// `Box` ownership rules out sharing and cycles.
pub struct List {
    head: Option<Box<Node>>,
}

/// The values of a chain, from the given link to the tail.
spec fn chain_values(link: Option<Box<Node>>) -> Seq<i32>
    decreases link,
{
    match link {
        None => Seq::empty(),
        Some(node) => seq![node.value] + chain_values(node.next),
    }
}

impl View for List {
    type V = Seq<i32>;

    /// The list's values from head to tail.
    closed spec fn view(&self) -> Seq<i32> {
        chain_values(self.head)
    }
}

/// The logical sequence after `value` is put in front of `s`.
pub open spec fn pushed(s: Seq<i32>, value: i32) -> Seq<i32> {
    seq![value] + s
}

/// The logical sequence after pushing `values[0]`, then `values[1]`, and so
/// on, onto a list whose sequence is `s`.
pub open spec fn pushed_all(s: Seq<i32>, values: Seq<i32>) -> Seq<i32>
    decreases values.len(),
{
    if values.len() == 0 {
        s
    } else {
        pushed(pushed_all(s, values.drop_last()), values.last())
    }
}

/// Pushing `v1, ..., vn` in that order onto an empty list gives the sequence
/// `vn, ..., v1`: the values come out reversed, one element per push.
pub proof fn lemma_pushes_reverse(values: Seq<i32>)
    ensures
        pushed_all(Seq::empty(), values) == values.reverse(),
        pushed_all(Seq::empty(), values).len() == values.len(),
    decreases values.len(),
{
    if values.len() > 0 {
        let prev = values.drop_last();
        lemma_pushes_reverse(prev);
        assert(pushed_all(Seq::empty(), values) =~= values.reverse());
    }
}

/// Appends the values of the chain at `link` to `out`, head first.
fn collect_chain(link: &Option<Box<Node>>, out: &mut Vec<i32>)
    ensures
        final(out)@ == old(out)@ + chain_values(*link),
    decreases *link,
{
    match link {
        None => {
            assert(old(out)@ + chain_values(*link) =~= old(out)@);
        },
        Some(node) => {
            out.push(node.value);
            collect_chain(&node.next, out);
            assert(old(out)@ + chain_values(*link) =~= old(out)@.push(node.value) + chain_values(
                node.next,
            ));
        },
    }
}

/// The number of nodes in the chain at `link`.
fn chain_len(link: &Option<Box<Node>>) -> (r: usize)
    requires
        chain_values(*link).len() <= usize::MAX,
    ensures
        r == chain_values(*link).len(),
    decreases *link,
{
    match link {
        None => 0,
        Some(node) => chain_len(&node.next) + 1,
    }
}

impl List {
    /// An empty list.
    pub fn new() -> (r: List)
        ensures
            r@ == Seq::<i32>::empty(),
    {
        List { head: None }
    }

    /// Puts `value` in front: the old chain becomes the new node's successor.
    pub fn push(&mut self, value: i32)
        ensures
            final(self)@ == pushed(old(self)@, value),
            final(self)@.len() == old(self)@.len() + 1,
    {
        let rest = self.head.take();
        self.head = Some(Box::new(Node { value, next: rest }));
    }

    /// The value at the head, or `None` for an empty list.
    pub fn head(&self) -> (r: Option<i32>)
        ensures
            self@.len() == 0 ==> r.is_none(),
            self@.len() > 0 ==> r == Some(self@[0]),
    {
        match &self.head {
            None => None,
            Some(node) => Some(node.value),
        }
    }

    /// Whether the list holds no value.
    pub fn is_empty(&self) -> (r: bool)
        ensures
            r == (self@.len() == 0),
    {
        self.head.is_none()
    }

    /// The number of values in the list.
    pub fn len(&self) -> (r: usize)
        requires
            self@.len() <= usize::MAX,
        ensures
            r == self@.len(),
    {
        chain_len(&self.head)
    }

    /// The values from head to tail.
    pub fn to_vec(&self) -> (r: Vec<i32>)
        ensures
            r@ == self@,
    {
        let mut out: Vec<i32> = Vec::new();
        collect_chain(&self.head, &mut out);
        assert(out@ =~= self@);
        out
    }
}

} // verus!
