//! The chat's server: who is connected, and who is sent what.
//!
//! The connections themselves are the caller's. The hub hands out the
//! identities, keeps the list of those connected and says, for a message
//! that came in, what goes out to whom.

use vstd::prelude::*;
use vstd::string::*;
use crate::text::{decimal, push_decimal};
use crate::wire::{Frame, FrameView};

verus! {

/// A text for one user.
#[derive(Debug)]
pub struct Delivery {
    pub to: usize,
    pub text: String,
}

/// Those of `users` that are not `id`, in their order.
pub open spec fn others(users: Seq<usize>, id: usize) -> Seq<usize>
    decreases users.len(),
{
    if users.len() == 0 {
        users
    } else if users.last() == id {
        others(users.drop_last(), id)
    } else {
        others(users.drop_last(), id).push(users.last())
    }
}

/// What the users read of a text that the user `from` sent.
pub open spec fn broadcast_text(from: usize, text: Seq<char>) -> Seq<char> {
    "<User#"@ + decimal(from as nat) + ">: "@ + text
}

/// The identity handed out after `id`: the next number, and zero after the
/// largest.
pub open spec fn id_after(id: usize) -> usize {
    if id == usize::MAX {
        0
    } else {
        (id + 1) as usize
    }
}

/// The users with `id` among them: at the end where it is new.
pub open spec fn with_user(users: Seq<usize>, id: usize) -> Seq<usize> {
    if users.contains(id) {
        users
    } else {
        users.push(id)
    }
}

/// The texts that go out when `frame` came in from `from`: for a text
/// message one to each other user, in their order; for any other frame
/// none.
pub open spec fn deliveries(users: Seq<usize>, from: usize, frame: FrameView) -> Seq<
    (usize, Seq<char>),
> {
    match frame {
        FrameView::Text(text) => others(users, from).map_values(
            |to: usize| (to, broadcast_text(from, text)),
        ),
        _ => seq![],
    }
}

/// What a list of deliveries holds.
pub open spec fn delivery_views(list: Seq<Delivery>) -> Seq<(usize, Seq<char>)> {
    list.map_values(|d: Delivery| (d.to, d.text@))
}

/// The users that are connected, and the identity that the next one gets.
#[derive(Debug)]
pub struct Hub {
    next_id: usize,
    users: Vec<usize>,
}

impl Hub {
    #[verifier::type_invariant]
    spec fn no_user_twice(&self) -> bool {
        self.users@.no_duplicates()
    }

    /// The identity that the next user gets.
    pub closed spec fn spec_next_id(&self) -> usize {
        self.next_id
    }

    /// The users that are connected, in the order in which they came.
    pub closed spec fn spec_users(&self) -> Seq<usize> {
        self.users@
    }

    /// A hub to which nobody is connected; the first user gets the identity
    /// one.
    pub fn new() -> (r: Hub)
        ensures
            r.spec_next_id() == 1,
            r.spec_users() == Seq::<usize>::empty(),
    {
        Hub { next_id: 1, users: Vec::new() }
    }

    /// The users that are connected, in the order in which they came.
    pub fn users(&self) -> (r: Vec<usize>)
        ensures
            r@ == self.spec_users(),
            r@.no_duplicates(),
    {
        proof {
            use_type_invariant(self);
        }
        self.users.clone()
    }

    /// Whether the user `id` is connected.
    pub fn is_connected(&self, id: usize) -> (r: bool)
        ensures
            r == self.spec_users().contains(id),
    {
        let mut i: usize = 0;
        while i < self.users.len()
            invariant
                i <= self.users.len(),
                forall|k: int| 0 <= k < i ==> self.users@[k] != id,
            decreases self.users.len() - i,
        {
            if self.users[i] == id {
                return true;
            }
            i += 1;
        }
        false
    }

    /// Takes in a new user and returns the identity that it got.
    pub fn user_connected(&mut self) -> (r: usize)
        ensures
            r == old(self).spec_next_id(),
            final(self).spec_next_id() == id_after(r),
            final(self).spec_users() == with_user(old(self).spec_users(), r),
            final(self).spec_users().contains(r),
    {
        proof {
            use_type_invariant(&*self);
        }
        let id = self.next_id;
        if !self.is_connected(id) {
            let mut users = self.users.clone();
            users.push(id);
            assert(users@[users.len() - 1] == id);
            self.users = users;
        }
        self.next_id = id.wrapping_add(1);
        id
    }

    /// Says what goes out to whom when `frame` came in from the user
    /// `my_id`.
    pub fn user_message(&self, my_id: usize, frame: &Frame) -> (r: Vec<Delivery>)
        ensures
            delivery_views(r@) == deliveries(self.spec_users(), my_id, frame@),
    {
        let mut out: Vec<Delivery> = Vec::new();
        match frame {
            Frame::Text(text) => {
                let mut line = String::from_str("<User#");
                push_decimal(&mut line, my_id as u64);
                line.append(">: ");
                line.append(text.as_str());
                let mut i: usize = 0;
                assert(self.users@.take(0) == Seq::<usize>::empty());
                assert(delivery_views(out@) =~= Seq::<(usize, Seq<char>)>::empty());
                while i < self.users.len()
                    invariant
                        i <= self.users.len(),
                        line@ == broadcast_text(my_id, text@),
                        delivery_views(out@) == others(
                            self.users@.take(i as int),
                            my_id,
                        ).map_values(|to: usize| (to, broadcast_text(my_id, text@))),
                    decreases self.users.len() - i,
                {
                    let ghost next = self.users@.take(i + 1);
                    assert(next.drop_last() == self.users@.take(i as int));
                    assert(next.last() == self.users@[i as int]);
                    let to = self.users[i];
                    if to != my_id {
                        let ghost before = delivery_views(out@);
                        out.push(Delivery { to, text: line.clone() });
                        assert(delivery_views(out@) =~= before.push((to, line@)));
                        assert(delivery_views(out@) =~= others(next, my_id).map_values(
                            |to: usize| (to, broadcast_text(my_id, text@)),
                        ));
                    }
                    i += 1;
                }
                assert(self.users@.take(self.users.len() as int) == self.users@);
            },
            _ => {
                assert(delivery_views(out@) =~= Seq::<(usize, Seq<char>)>::empty());
            },
        }
        out
    }

    /// Takes out the user `my_id`.
    pub fn user_disconnected(&mut self, my_id: usize)
        ensures
            final(self).spec_next_id() == old(self).spec_next_id(),
            final(self).spec_users() == others(old(self).spec_users(), my_id),
    {
        proof {
            use_type_invariant(&*self);
        }
        let mut kept: Vec<usize> = Vec::new();
        let mut i: usize = 0;
        assert(self.users@.take(0) == Seq::<usize>::empty());
        while i < self.users.len()
            invariant
                i <= self.users.len(),
                self.users@.no_duplicates(),
                kept@ == others(self.users@.take(i as int), my_id),
            decreases self.users.len() - i,
        {
            let ghost next = self.users@.take(i + 1);
            assert(next.drop_last() == self.users@.take(i as int));
            assert(next.last() == self.users@[i as int]);
            if self.users[i] != my_id {
                kept.push(self.users[i]);
            }
            i += 1;
        }
        assert(self.users@.take(self.users.len() as int) == self.users@);
        proof {
            lemma_others(self.users@, my_id);
        }
        self.users = kept;
    }
}

/// A user is among the others exactly when it is among the users and is
/// not `id`.
pub proof fn lemma_others_contains(users: Seq<usize>, id: usize, u: usize)
    ensures
        others(users, id).contains(u) <==> (u != id && users.contains(u)),
    decreases users.len(),
{
    if users.len() > 0 {
        let front = users.drop_last();
        let last = users.last();
        let rest = others(front, id);
        let all = others(users, id);
        lemma_others_contains(front, id, u);
        if all.contains(u) {
            let i = choose|i: int| 0 <= i < all.len() && all[i] == u;
            if i < rest.len() {
                assert(rest[i] == u);
                assert(rest.contains(u));
                let j = choose|j: int| 0 <= j < front.len() && front[j] == u;
                assert(users[j] == u);
            } else {
                assert(users[users.len() - 1] == u);
            }
        }
        if u != id && users.contains(u) {
            let j = choose|j: int| 0 <= j < users.len() && users[j] == u;
            if j < front.len() {
                assert(front[j] == u);
                assert(front.contains(u));
                let i = choose|i: int| 0 <= i < rest.len() && rest[i] == u;
                assert(all[i] == u);
            } else {
                assert(last == u);
                assert(all[all.len() - 1] == u);
            }
        }
    }
}

/// The others are no more than the users, hold no user twice where the
/// users hold none twice, and are the users where `id` is not among them.
pub proof fn lemma_others(users: Seq<usize>, id: usize)
    ensures
        others(users, id).len() <= users.len(),
        users.no_duplicates() ==> others(users, id).no_duplicates(),
        !users.contains(id) ==> others(users, id) == users,
    decreases users.len(),
{
    if users.len() > 0 {
        let front = users.drop_last();
        let last = users.last();
        lemma_others(front, id);
        let rest = others(front, id);
        let all = others(users, id);
        assert(users == front.push(last));
        if users.no_duplicates() {
            assert(front.no_duplicates());
            if last != id {
                assert forall|i: int, j: int|
                    0 <= i < all.len() && 0 <= j < all.len() && i != j implies all[i] != all[j] by {
                    if i == rest.len() || j == rest.len() {
                        let k = if i == rest.len() {
                            j
                        } else {
                            i
                        };
                        if rest[k] == last {
                            assert(rest.contains(last));
                            lemma_others_contains(front, id, last);
                            let m = choose|m: int| 0 <= m < front.len() && front[m] == last;
                            assert(users[m] == users[users.len() - 1]);
                        }
                    }
                }
            }
        }
        if !users.contains(id) {
            assert(last != id) by {
                assert(users[users.len() - 1] == last);
            }
            assert(!front.contains(id)) by {
                if front.contains(id) {
                    let j = choose|j: int| 0 <= j < front.len() && front[j] == id;
                    assert(users[j] == id);
                }
            }
        }
    }
}

/// A text that a user sent goes to every other user that is connected, once,
/// and never back to the user that sent it.
pub proof fn lemma_broadcast_reaches_others(
    users: Seq<usize>,
    from: usize,
    text: Seq<char>,
    to: usize,
)
    requires
        users.no_duplicates(),
    ensures
        ({
            let sent = deliveries(users, from, FrameView::Text(text));
            &&& sent.len() == others(users, from).len()
            &&& forall|i: int| 0 <= i < sent.len() ==> (#[trigger] sent[i]).1 == broadcast_text(from, text)
            &&& forall|i: int| 0 <= i < sent.len() ==> (#[trigger] sent[i]).0 != from
            &&& forall|i: int, j: int|
                0 <= i < sent.len() && 0 <= j < sent.len() && i != j ==> (#[trigger] sent[i]).0 != (
                #[trigger] sent[j]).0
            &&& (to != from && users.contains(to)) ==> exists|i: int|
                0 <= i < sent.len() && (#[trigger] sent[i]).0 == to
        }),
{
    lemma_others(users, from);
    let rest = others(users, from);
    let sent = deliveries(users, from, FrameView::Text(text));
    assert forall|i: int| 0 <= i < sent.len() implies (#[trigger] sent[i]).0 != from by {
        assert(sent[i].0 == rest[i]);
        assert(rest.contains(rest[i]));
        lemma_others_contains(users, from, rest[i]);
    }
    assert forall|i: int, j: int|
        0 <= i < sent.len() && 0 <= j < sent.len() && i != j implies (#[trigger] sent[i]).0 != (
    #[trigger] sent[j]).0 by {
        assert(sent[i].0 == rest[i]);
        assert(sent[j].0 == rest[j]);
    }
    if to != from && users.contains(to) {
        lemma_others_contains(users, from, to);
        assert(rest.contains(to));
        let i = choose|i: int| 0 <= i < rest.len() && rest[i] == to;
        assert(sent[i].0 == to);
    }
}

/// Whether every character is a decimal digit.
pub open spec fn all_digits(s: Seq<char>) -> bool {
    forall|i: int| 0 <= i < s.len() ==> '0' <= #[trigger] s[i] <= '9'
}

/// The number that a run of decimal digits stands for.
pub open spec fn digits_value(s: Seq<char>) -> nat
    decreases s.len(),
{
    if s.len() == 0 {
        0
    } else {
        digits_value(s.drop_last()) * 10 + (s.last() as nat - 48) as nat
    }
}

/// A numeral without the plus sign that may stand before it.
pub open spec fn unsigned_part(text: Seq<char>) -> Seq<char> {
    if text.len() > 0 && text[0] == '+' {
        text.drop_first()
    } else {
        text
    }
}

/// The port that a text names: the text is a decimal numeral, with or
/// without a plus sign before it, of a number that a port can be.
pub open spec fn port_of(text: Seq<char>) -> Option<u16> {
    let digits = unsigned_part(text);
    if digits.len() > 0 && all_digits(digits) && digits_value(digits) <= u16::MAX {
        Some(digits_value(digits) as u16)
    } else {
        None
    }
}

/// The number that a run of digits stands for is no smaller than the number
/// that any of its beginnings stands for.
pub proof fn lemma_digits_value_grows(s: Seq<char>, n: int)
    requires
        all_digits(s),
        0 <= n <= s.len(),
    ensures
        digits_value(s.take(n)) <= digits_value(s),
    decreases s.len() - n,
{
    if n == s.len() {
        assert(s.take(n) == s);
    } else {
        lemma_digits_value_grows(s, n + 1);
        assert(s.take(n + 1).drop_last() == s.take(n));
        assert(s.take(n + 1).last() == s[n]);
    }
}

/// Reads the port that the server is to listen on.
pub fn parse_port(text: &str) -> (r: Option<u16>)
    ensures
        r == port_of(text@),
{
    let chars = crate::text::to_chars(text);
    let start: usize = if chars.len() > 0 && chars[0] == '+' {
        1
    } else {
        0
    };
    let ghost digits = unsigned_part(text@);
    assert(digits == chars@.skip(start as int));
    if start == chars.len() {
        return None;
    }
    let mut value: u32 = 0;
    let mut i: usize = start;
    assert(digits.take(0) == Seq::<char>::empty());
    while i < chars.len()
        invariant
            start <= i <= chars.len(),
            digits == unsigned_part(text@),
            digits == chars@.skip(start as int),
            all_digits(digits.take(i - start)),
            value == digits_value(digits.take(i - start)),
            value <= u16::MAX,
        decreases chars.len() - i,
    {
        let c = chars[i];
        let ghost next = digits.take(i - start + 1);
        assert(next.drop_last() == digits.take(i - start));
        assert(next.last() == c);
        if c < '0' || c > '9' {
            assert(!all_digits(digits)) by {
                assert(digits[i - start] == c);
            }
            return None;
        }
        assert(all_digits(next)) by {
            assert forall|k: int| 0 <= k < next.len() implies '0' <= #[trigger] next[k] <= '9' by {
                if k < next.len() - 1 {
                    assert(next[k] == digits.take(i - start)[k]);
                }
            }
        }
        let d: u32 = (c as u32) - 48;
        value = value * 10 + d;
        if value > 65535 {
            proof {
                if all_digits(digits) {
                    lemma_digits_value_grows(digits, i - start + 1);
                }
            }
            return None;
        }
        i += 1;
    }
    assert(digits.take(i - start) == digits);
    Some(value as u16)
}

} // verus!
