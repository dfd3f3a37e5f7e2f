use vstd::prelude::*;
use vstd::string::*;

use crate::render::Render;

verus! {

type NodePointer<T> = Option<Box<Node<T>>>;

struct Node<T> {
    value: T,
    next: NodePointer<T>,
}

/// The elements held by a chain of links, head first.
spec fn link_view<T>(link: NodePointer<T>) -> Seq<T>
    decreases link,
{
    match link {
        None => Seq::empty(),
        Some(node) => seq![node.value] + link_view(node.next),
    }
}

/// The separator written after each element: `" -> "`.
pub open spec fn arrow() -> Seq<char> {
    seq![' ', '-', '>', ' ']
}

/// The token that closes every rendering: `"None"`.
pub open spec fn sentinel() -> Seq<char> {
    seq!['N', 'o', 'n', 'e']
}

/// Each element's text followed by the separator, in order.
pub open spec fn segments<T: Render>(s: Seq<T>) -> Seq<char>
    decreases s.len(),
{
    if s.len() == 0 {
        Seq::empty()
    } else {
        segments(s.drop_last()) + s.last().text() + arrow()
    }
}

/// The text of a list holding `s`: `"<v1> -> <v2> -> ... -> <vn> -> None"`.
pub open spec fn rendering<T: Render>(s: Seq<T>) -> Seq<char> {
    segments(s) + sentinel()
}

/// The only way a list operation can fail.
#[derive(Debug, PartialEq, Eq, Structural)]
pub enum LinkedListError {
    /// An insertion targeted a position with no predecessor in the list.
    OutOfBounds,
}

/// An ordered sequence of values kept as a chain of individually owned nodes.
pub struct LinkedList<T> {
    head: NodePointer<T>,
}

impl<T> View for LinkedList<T> {
    type V = Seq<T>;

    closed spec fn view(&self) -> Seq<T> {
        link_view(self.head)
    }
}

impl<T> LinkedList<T> {
    /// An empty list.
    pub fn new() -> (r: Self)
        ensures
            r@ == Seq::<T>::empty(),
    {
        LinkedList { head: None }
    }

    /// A cursor that visits the elements in order without changing the list.
    pub fn iter(&self) -> (r: LinkedListIterator<'_, T>)
        ensures
            r@ == self@,
    {
        let current = match &self.head {
            Some(node) => Some(&**node),
            None => None,
        };
        LinkedListIterator { current }
    }

    /// Puts `value` in front of every element already held.
    pub fn push(&mut self, value: T)
        ensures
            final(self)@ == seq![value] + old(self)@,
    {
        let node = Box::new(Node { value, next: self.head.take() });
        self.head = Some(node);
    }

    /// Removes and returns the first element; an empty list stays empty and gives `None`.
    pub fn pop(&mut self) -> (r: Option<T>)
        ensures
            old(self)@.len() == 0 ==> r is None && final(self)@ == old(self)@,
            old(self)@.len() > 0 ==> r == Some(old(self)@[0]) && final(self)@ == old(self)@.drop_first(),
    {
        match self.head.take() {
            None => None,
            Some(node) => {
                self.head = node.next;
                proof {
                    assert(final(self)@ =~= old(self)@.drop_first());
                }
                Some(node.value)
            },
        }
    }

    /// Places `value` so that exactly `index` elements precede it.
    /// Fails, changing nothing, when the list holds fewer than `index` elements.
    pub fn insert(&mut self, index: usize, value: T) -> (r: Result<(), LinkedListError>)
        ensures
            index <= old(self)@.len() ==> r is Ok && final(self)@ == old(self)@.insert(index as int, value),
            index > old(self)@.len() ==> r == Err::<(), LinkedListError>(LinkedListError::OutOfBounds)
                && final(self)@ == old(self)@,
    {
        if index == 0 {
            self.push(value);
            proof {
                assert(final(self)@ =~= old(self)@.insert(0, value));
            }
            return Ok(());
        }
        let ghost all = old(self)@;
        let ghost done = final(self)@;
        let mut current: &mut NodePointer<T> = &mut self.head;
        let mut count: usize = 0;
        #[verifier::loop_isolation(false)]
        loop
            invariant
                0 < index,
                count < index,
                count <= all.len(),
                link_view(*current) == all.subrange(count as int, all.len() as int),
                done == all.subrange(0, count as int) + link_view(*final(current)),
            decreases all.len() - count,
        {
            let ghost rest = link_view(*current);
            let ghost rest_final = link_view(*final(current));
            match current {
                None => {
                    proof {
                        assert(rest =~= Seq::<T>::empty());
                        assert(all.subrange(0, count as int) =~= all);
                    }
                    return Err(LinkedListError::OutOfBounds);
                },
                Some(node) => {
                    proof {
                        assert(rest == seq![node.value] + link_view(node.next));
                        assert(rest[0] == all[count as int]);
                        assert(rest.drop_first() =~= all.subrange(count + 1, all.len() as int));
                    }
                    if count + 1 == index {
                        let ghost tail = link_view(node.next);
                        let next = node.next.take();
                        node.next = Some(Box::new(Node { value, next }));
                        proof {
                            assert(link_view(node.next) == seq![value] + tail);
                            assert(rest_final == seq![node.value] + link_view(node.next));
                            assert(done =~= all.insert(index as int, value));
                        }
                        return Ok(());
                    }
                    count += 1;
                    current = &mut node.next;
                    proof {
                        assert(rest_final == seq![node.value] + link_view(*final(current)));
                        assert(done =~= all.subrange(0, count as int) + link_view(*final(current)));
                    }
                },
            }
        }
    }

    /// A list holding the elements of `values` in the same order.
    pub fn from(values: Vec<T>) -> (r: Self)
        ensures
            r@ == values@,
    {
        let mut values = values;
        let ghost all = values@;
        let mut list = LinkedList::new();
        while values.len() > 0
            invariant
                values@.len() <= all.len(),
                values@ == all.subrange(0, values@.len() as int),
                list@ == all.subrange(values@.len() as int, all.len() as int),
            decreases values@.len(),
        {
            let value = values.pop().unwrap();
            list.push(value);
            proof {
                assert(list@ =~= all.subrange(values@.len() as int, all.len() as int));
            }
        }
        proof {
            assert(list@ =~= all);
        }
        list
    }
}

impl<T: Render> LinkedList<T> {
    /// The text of the list: each element followed by `" -> "`, then `"None"`.
    pub fn to_string(&self) -> (r: String)
        ensures
            r@ == rendering(self@),
    {
        let mut out = String::new();
        let mut cur: &NodePointer<T> = &self.head;
        let ghost mut i: int = 0;
        proof {
            assert(out@ =~= segments(self@.subrange(0, 0)));
            assert(link_view(*cur) =~= self@.subrange(0, self@.len() as int));
        }
        while cur.is_some()
            invariant
                0 <= i <= self@.len(),
                link_view(*cur) == self@.subrange(i, self@.len() as int),
                out@ == segments(self@.subrange(0, i)),
            decreases self@.len() - i,
        {
            match cur {
                Some(node) => {
                    let ghost rest = link_view(*cur);
                    let ghost before = out@;
                    proof {
                        assert(rest == seq![node.value] + link_view(node.next));
                    }
                    node.value.render_into(&mut out);
                    out.append(" -> ");
                    cur = &node.next;
                    proof {
                        let all = self@;
                        assert(rest.len() == all.len() - i);
                        assert(rest[0] == all[i]);
                        assert(link_view(*cur) =~= rest.drop_first());
                        assert(all.subrange(0, i + 1).drop_last() =~= all.subrange(0, i));
                        reveal_strlit(" -> ");
                        assert(" -> "@ =~= arrow());
                        assert(out@ == before + node.value.text() + arrow());
                        assert(all.subrange(0, i + 1).last() == node.value);
                        assert(out@ =~= segments(all.subrange(0, i + 1)));
                        i = i + 1;
                    }
                },
                None => {},
            }
        }
        proof {
            reveal_strlit("None");
            assert("None"@ =~= sentinel());
            assert(self@.subrange(0, i) =~= self@);
        }
        out.append("None");
        out
    }
}

impl<T> Default for LinkedList<T> {
    fn default() -> (r: Self)
        ensures
            r@ == Seq::<T>::empty(),
    {
        Self::new()
    }
}

/// A read-only cursor over a list, yielding a reference to each element in order.
pub struct LinkedListIterator<'a, T> {
    current: Option<&'a Node<T>>,
}

impl<'a, T> View for LinkedListIterator<'a, T> {
    type V = Seq<T>;

    /// The elements that are still to be visited.
    closed spec fn view(&self) -> Seq<T> {
        match self.current {
            None => Seq::empty(),
            Some(node) => seq![node.value] + link_view(node.next),
        }
    }
}

impl<'a, T> LinkedListIterator<'a, T> {
    /// The next element, or `None` once every element has been visited.
    pub fn next(&mut self) -> (r: Option<&'a T>)
        ensures
            old(self)@.len() == 0 ==> r is None && final(self)@ == old(self)@,
            old(self)@.len() > 0 ==> r is Some && *r->0 == old(self)@[0] && final(self)@
                == old(self)@.drop_first(),
    {
        match self.current {
            None => None,
            Some(node) => {
                self.current = match &node.next {
                    Some(next) => Some(&**next),
                    None => None,
                };
                proof {
                    assert(final(self)@ =~= old(self)@.drop_first());
                }
                Some(&node.value)
            },
        }
    }
}

} // verus!
