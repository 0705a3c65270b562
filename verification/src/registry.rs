//! The window registry: the authoritative set of live window ids, and the
//! source of fresh ids that are never repeated within one process.
use vstd::prelude::*;
use crate::num::{
    all_digits, dec_digits, digit_char, digit_val, digits_val, is_digit, push_dec_u64,
};
use crate::text::{chars_to_string, str_eq, str_to_chars};

verus! {

/// Relies on uuid::Uuid::new_v4 and its Display impl: a fresh random UUID
/// printed in the hyphenated lowercase form, which is exactly 36 characters.
/// Nothing is assumed about which UUID comes back.
#[verifier::external_body]
fn fresh_uuid() -> (s: String)
    ensures
        s@.len() == 36,
{
    uuid::Uuid::new_v4().to_string()
}

/// The shape every issued id has: 36 characters of UUID, a separator, and
/// the decimal serial it was issued under.
pub open spec fn issued_shape(id: Seq<char>, n: int) -> bool {
    &&& id.len() > 37
    &&& id[36] == '-'
    &&& id.subrange(37, id.len() as int) == dec_digits(n as nat)
}

/// The registry of live windows. `live` holds the ids that currently pair a
/// window with its webview; `issued` remembers every id ever handed out.
pub struct Registry {
    live: Vec<String>,
    serial: u64,
    issued: Ghost<Seq<Seq<char>>>,
}

impl Registry {
    /// Every issued id carries its serial; live ids are distinct and were
    /// all issued.
    pub closed spec fn wf(self) -> bool {
        &&& self.serial as int == self.issued@.len()
        &&& forall|i: int|
            0 <= i < self.issued@.len() ==> issued_shape(#[trigger] self.issued@[i], i)
        &&& forall|i: int, j: int|
            0 <= i < j < self.live@.len() ==> (#[trigger] self.live@[i])@ != (
            #[trigger] self.live@[j])@
        &&& forall|i: int|
            0 <= i < self.live@.len() ==> self.issued@.contains((#[trigger] self.live@[i])@)
    }

    /// The ids of the currently live windows, in insertion order.
    pub closed spec fn live_ids(self) -> Seq<Seq<char>> {
        Seq::new(self.live@.len(), |i: int| self.live@[i]@)
    }

    /// Every id ever issued, in issue order.
    pub closed spec fn issued_ids(self) -> Seq<Seq<char>> {
        self.issued@
    }

    /// Whether `id` is live.
    pub closed spec fn has(self, id: Seq<char>) -> bool {
        exists|i: int| 0 <= i < self.live@.len() && (#[trigger] self.live@[i])@ == id
    }

    pub closed spec fn spec_len(self) -> nat {
        self.live@.len()
    }

    /// An empty registry that has issued nothing.
    pub fn new() -> (r: Registry)
        ensures
            r.wf(),
            r.live_ids() == Seq::<Seq<char>>::empty(),
            r.issued_ids() == Seq::<Seq<char>>::empty(),
            r.spec_len() == 0,
            forall|x: Seq<char>| !r.has(x),
    {
        let r = Registry { live: Vec::new(), serial: 0, issued: Ghost(Seq::empty()) };
        proof {
            assert(r.live_ids() =~= Seq::<Seq<char>>::empty());
        }
        r
    }

    /// How many windows are live.
    pub fn len(&self) -> (n: usize)
        ensures
            n == self.spec_len(),
    {
        self.live.len()
    }

    /// How many ids were ever issued.
    pub fn issued_count(&self) -> (n: u64)
        requires
            self.wf(),
        ensures
            n as nat == self.issued_ids().len(),
    {
        self.serial
    }

    /// Whether no window is live.
    pub fn is_empty(&self) -> (r: bool)
        ensures
            r == (self.spec_len() == 0),
    {
        self.live.len() == 0
    }

    /// Whether `id` names a live window.
    pub fn contains_id(&self, id: &str) -> (r: bool)
        ensures
            r == self.has(id@),
    {
        let n = self.live.len();
        let mut i: usize = 0;
        while i < n
            invariant
                n == self.live@.len(),
                i <= n,
                forall|p: int| 0 <= p < i ==> (#[trigger] self.live@[p])@ != id@,
            decreases n - i,
        {
            if str_eq(self.live[i].as_str(), id) {
                return true;
            }
            i = i + 1;
        }
        false
    }

    /// Issue a fresh id: a UUID extended with the issue serial, so that no
    /// two ids issued by one registry are ever equal.
    pub fn issue_id(&mut self) -> (id: String)
        requires
            old(self).wf(),
            old(self).issued_ids().len() < u64::MAX,
        ensures
            final(self).wf(),
            final(self).issued_ids() == old(self).issued_ids().push(id@),
            final(self).live_ids() == old(self).live_ids(),
            forall|x: Seq<char>| final(self).has(x) <==> old(self).has(x),
            final(self).spec_len() == old(self).spec_len(),
            !old(self).issued_ids().contains(id@),
            issued_shape(id@, old(self).issued_ids().len() as int),
    {
        let u = fresh_uuid();
        let mut cs = str_to_chars(u.as_str());
        cs.push('-');
        push_dec_u64(self.serial, &mut cs);
        let id = chars_to_string(&cs);
        proof {
            assert(id@.subrange(37, id@.len() as int) =~= dec_digits(self.serial as nat));
        }
        let ghost n = self.serial as int;
        self.serial = self.serial + 1;
        self.issued = Ghost(self.issued@.push(id@));
        proof {
            lemma_dec_digits_val(n as nat);
            assert forall|i: int|
                0 <= i < old(self).issued@.len() implies (#[trigger] old(self).issued@[i]) != id@ by {
                lemma_dec_digits_val(i as nat);
                if old(self).issued@[i] == id@ {
                    assert(old(self).issued@[i].subrange(37, old(self).issued@[i].len() as int)
                        == dec_digits(i as nat));
                    assert(digits_val(dec_digits(i as nat)) == digits_val(dec_digits(n as nat)));
                }
            }
            assert(!old(self).issued@.contains(id@));
            assert forall|i: int|
                0 <= i < self.issued@.len() implies issued_shape(
                #[trigger] self.issued@[i],
                i,
            ) by {
                if i < old(self).issued@.len() {
                    assert(old(self).issued@[i] == self.issued@[i]);
                }
            }
            assert(self.live_ids() =~= old(self).live_ids());
            assert forall|i: int|
                0 <= i < self.live@.len() implies self.issued@.contains(
                (#[trigger] self.live@[i])@,
            ) by {
                assert(old(self).issued@.contains(self.live@[i]@));
                let w = choose|k: int|
                    0 <= k < old(self).issued@.len() && old(self).issued@[k] == self.live@[i]@;
                assert(self.issued@[w] == self.live@[i]@);
            }
        }
        id
    }

    /// Record a created window under an id this registry issued.
    pub fn insert(&mut self, id: String)
        requires
            old(self).wf(),
            !old(self).has(id@),
            old(self).issued_ids().contains(id@),
        ensures
            final(self).wf(),
            final(self).live_ids() == old(self).live_ids().push(id@),
            final(self).issued_ids() == old(self).issued_ids(),
            final(self).has(id@),
            final(self).spec_len() == old(self).spec_len() + 1,
            forall|x: Seq<char>| final(self).has(x) <==> (old(self).has(x) || x == id@),
    {
        let ghost idv = id@;
        self.live.push(id);
        proof {
            assert(self.live@[self.live@.len() - 1]@ == idv);
            assert(self.live_ids() =~= old(self).live_ids().push(idv));
            assert forall|x: Seq<char>| self.has(x) <==> (old(self).has(x) || x
                == idv) by {
                if self.has(x) {
                    let i = choose|i: int|
                        0 <= i < self.live@.len() && (#[trigger] self.live@[i])@ == x;
                    if i < old(self).live@.len() {
                        assert(old(self).live@[i]@ == x);
                    }
                }
                if old(self).has(x) {
                    let i = choose|i: int|
                        0 <= i < old(self).live@.len() && (#[trigger] old(self).live@[i])@ == x;
                    assert(self.live@[i]@ == x);
                }
            }
        }
    }

    /// Remove a live window. Returns whether `id` was live; afterwards it
    /// is not, and every other id is exactly as live as before.
    pub fn remove(&mut self, id: &str) -> (r: bool)
        requires
            old(self).wf(),
        ensures
            final(self).wf(),
            r == old(self).has(id@),
            final(self).issued_ids() == old(self).issued_ids(),
            !r ==> *final(self) == *old(self),
            r ==> final(self).spec_len() + 1 == old(self).spec_len(),
            !final(self).has(id@),
            forall|x: Seq<char>| x != id@ ==> (final(self).has(x) <==> old(self).has(x)),
    {
        let n = self.live.len();
        let mut i: usize = 0;
        while i < n
            invariant
                n == self.live@.len(),
                i <= n,
                *self == *old(self),
                old(self).wf(),
                forall|p: int| 0 <= p < i ==> (#[trigger] self.live@[p])@ != id@,
            decreases n - i,
        {
            if str_eq(self.live[i].as_str(), id) {
                let ghost pre = self.live@;
                self.live.remove(i);
                proof {
                    assert(pre[i as int]@ == id@);
                    assert(old(self).has(id@));
                    assert forall|x: Seq<char>| #![auto] !self.has(x) || x == id@
                        || old(self).has(x) by {
                        if self.has(x) && x != id@ {
                            let k = choose|k: int|
                                0 <= k < self.live@.len() && (#[trigger] self.live@[k])@ == x;
                            if k < i {
                                assert(pre[k]@ == x);
                            } else {
                                assert(pre[k + 1]@ == x);
                            }
                        }
                    }
                    assert forall|x: Seq<char>| x != id@ && old(self).has(x)
                        implies self.has(x) by {
                        let k = choose|k: int| 0 <= k < pre.len() && (#[trigger] pre[k])@ == x;
                        assert(k != i);
                        if k < i {
                            assert(self.live@[k]@ == x);
                        } else {
                            assert(self.live@[k - 1]@ == x);
                        }
                    }
                    assert(!self.has(id@)) by {
                        if self.has(id@) {
                            let k = choose|k: int|
                                0 <= k < self.live@.len() && (#[trigger] self.live@[k])@ == id@;
                            if k < i {
                                assert(pre[k]@ == id@);
                            } else {
                                assert(pre[k + 1]@ == id@);
                                assert(pre[k + 1]@ != id@);
                            }
                        }
                    }
                }
                return true;
            }
            i = i + 1;
        }
        false
    }
}

/// Every live id was issued.
pub proof fn lemma_live_issued(r: Registry)
    requires
        r.wf(),
    ensures
        forall|x: Seq<char>| r.has(x) ==> r.issued_ids().contains(x),
{
    assert forall|x: Seq<char>| r.has(x) implies r.issued_ids().contains(x) by {
        let i = choose|i: int| 0 <= i < r.live@.len() && (#[trigger] r.live@[i])@ == x;
        assert(r.issued@.contains(r.live@[i]@));
    }
}

/// No id is ever issued twice: the issued sequence is duplicate-free.
pub proof fn lemma_issued_distinct(r: Registry)
    requires
        r.wf(),
    ensures
        forall|i: int, j: int|
            0 <= i < j < r.issued_ids().len() ==> r.issued_ids()[i] != r.issued_ids()[j],
{
    assert forall|i: int, j: int|
        0 <= i < j < r.issued_ids().len() implies r.issued_ids()[i] != r.issued_ids()[j] by {
        lemma_dec_digits_val(i as nat);
        lemma_dec_digits_val(j as nat);
        assert(issued_shape(r.issued@[i], i));
        assert(issued_shape(r.issued@[j], j));
        if r.issued@[i] == r.issued@[j] {
            assert(r.issued@[i].subrange(37, r.issued@[i].len() as int) == dec_digits(i as nat));
            assert(r.issued@[j].subrange(37, r.issued@[j].len() as int) == dec_digits(j as nat));
        }
    }
}

/// Reading back the decimal digits of `n` gives `n`: decimal rendering is
/// injective.
pub proof fn lemma_dec_digits_val(n: nat)
    ensures
        all_digits(dec_digits(n)),
        digits_val(dec_digits(n)) == n,
    decreases n,
{
    reveal_with_fuel(digits_val, 2);
    if n < 10 {
        let s = dec_digits(n);
        assert(s.len() == 1);
        assert(s.subrange(0, 0) =~= Seq::<char>::empty());
        assert(digit_val(digit_char(n as int)) == n);
        assert(s[0] == digit_char(n as int));
    } else {
        lemma_dec_digits_val(n / 10);
        let s = dec_digits(n);
        let pre = dec_digits(n / 10);
        assert(s =~= pre + seq![digit_char((n % 10) as int)]);
        assert(s.subrange(0, s.len() - 1) =~= pre);
        assert(s.last() == digit_char((n % 10) as int));
        assert(digit_val(digit_char((n % 10) as int)) == n % 10);
        assert forall|p: int| 0 <= p < s.len() implies is_digit(#[trigger] s[p]) by {
            if p < pre.len() {
                assert(pre[p] == s[p]);
                assert(is_digit(pre[p]));
            } else {
                assert(s[p] == digit_char((n % 10) as int));
            }
        }
    }
}

} // verus!
