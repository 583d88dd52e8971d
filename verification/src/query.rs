//! Ordered query-argument sets for API calls.
//!
//! A [`Query`] is an insertion-ordered sequence of `key=value` pairs. A
//! value may be absent, in which case the pair contributes nothing to the
//! encoded output — not even its key. Encoding joins the present pairs
//! with `&`, in insertion order, with no leading, trailing or doubled
//! separators.
//!
//! No percent-escaping is applied: a value containing `&` or `=` passes
//! through as it stands. The servers this protocol talks to expect the
//! query in that raw form, so escaping here would change what they see;
//! callers that need such values delivered intact must escape them
//! before appending.

use vstd::prelude::*;
use vstd::string::StringExecFns;

use crate::numeral::{dec_int_of, dec_of, i64_to_string, u64_to_string};

verus! {

/// One possibly-absent argument value. Absent is distinct from an empty
/// string: an absent value is omitted from the encoded output entirely.
#[derive(Clone)]
pub struct Arg(pub Option<String>);

impl View for Arg {
    type V = Option<Seq<char>>;

    open spec fn view(&self) -> Option<Seq<char>> {
        match self.0 {
            Some(s) => Some(s@),
            None => None,
        }
    }
}

impl Arg {
    /// Whether the value is present.
    pub fn is_some(&self) -> (r: bool)
        ensures
            r == self@ is Some,
    {
        self.0.is_some()
    }
}

/// Conversion of a typed value into a query argument.
///
/// `arg_view` is the abstract value the conversion produces: `None` for
/// an absent argument, otherwise the exact character sequence that will
/// stand after `=` in the encoded query.
pub trait IntoArg: Sized {
    /// The abstract argument value this conversion produces.
    spec fn arg_view(self) -> Option<Seq<char>>;

    /// Converts the value into an [`Arg`].
    fn into_arg(self) -> (r: Arg)
        ensures
            r@ == self.arg_view(),
    ;

    /// Converts a borrowed value into an [`Arg`], leaving it in place.
    fn as_arg(&self) -> (r: Arg)
        ensures
            r@ == (*self).arg_view(),
    ;
}

impl IntoArg for u64 {
    open spec fn arg_view(self) -> Option<Seq<char>> {
        Some(dec_of(self as nat))
    }

    fn into_arg(self) -> (r: Arg) {
        Arg(Some(u64_to_string(self)))
    }

    fn as_arg(&self) -> (r: Arg) {
        Arg(Some(u64_to_string(*self)))
    }
}

impl IntoArg for u8 {
    open spec fn arg_view(self) -> Option<Seq<char>> {
        Some(dec_of(self as nat))
    }

    fn into_arg(self) -> (r: Arg) {
        Arg(Some(u64_to_string(self as u64)))
    }

    fn as_arg(&self) -> (r: Arg) {
        Arg(Some(u64_to_string(*self as u64)))
    }
}

impl IntoArg for u16 {
    open spec fn arg_view(self) -> Option<Seq<char>> {
        Some(dec_of(self as nat))
    }

    fn into_arg(self) -> (r: Arg) {
        Arg(Some(u64_to_string(self as u64)))
    }

    fn as_arg(&self) -> (r: Arg) {
        Arg(Some(u64_to_string(*self as u64)))
    }
}

impl IntoArg for u32 {
    open spec fn arg_view(self) -> Option<Seq<char>> {
        Some(dec_of(self as nat))
    }

    fn into_arg(self) -> (r: Arg) {
        Arg(Some(u64_to_string(self as u64)))
    }

    fn as_arg(&self) -> (r: Arg) {
        Arg(Some(u64_to_string(*self as u64)))
    }
}

impl IntoArg for usize {
    open spec fn arg_view(self) -> Option<Seq<char>> {
        Some(dec_of(self as nat))
    }

    fn into_arg(self) -> (r: Arg) {
        Arg(Some(u64_to_string(self as u64)))
    }

    fn as_arg(&self) -> (r: Arg) {
        Arg(Some(u64_to_string(*self as u64)))
    }
}

impl IntoArg for i64 {
    open spec fn arg_view(self) -> Option<Seq<char>> {
        Some(dec_int_of(self as int))
    }

    fn into_arg(self) -> (r: Arg) {
        Arg(Some(i64_to_string(self)))
    }

    fn as_arg(&self) -> (r: Arg) {
        Arg(Some(i64_to_string(*self)))
    }
}

impl IntoArg for i8 {
    open spec fn arg_view(self) -> Option<Seq<char>> {
        Some(dec_int_of(self as int))
    }

    fn into_arg(self) -> (r: Arg) {
        Arg(Some(i64_to_string(self as i64)))
    }

    fn as_arg(&self) -> (r: Arg) {
        Arg(Some(i64_to_string(*self as i64)))
    }
}

impl IntoArg for i16 {
    open spec fn arg_view(self) -> Option<Seq<char>> {
        Some(dec_int_of(self as int))
    }

    fn into_arg(self) -> (r: Arg) {
        Arg(Some(i64_to_string(self as i64)))
    }

    fn as_arg(&self) -> (r: Arg) {
        Arg(Some(i64_to_string(*self as i64)))
    }
}

impl IntoArg for i32 {
    open spec fn arg_view(self) -> Option<Seq<char>> {
        Some(dec_int_of(self as int))
    }

    fn into_arg(self) -> (r: Arg) {
        Arg(Some(i64_to_string(self as i64)))
    }

    fn as_arg(&self) -> (r: Arg) {
        Arg(Some(i64_to_string(*self as i64)))
    }
}

impl IntoArg for isize {
    open spec fn arg_view(self) -> Option<Seq<char>> {
        Some(dec_int_of(self as int))
    }

    fn into_arg(self) -> (r: Arg) {
        Arg(Some(i64_to_string(self as i64)))
    }

    fn as_arg(&self) -> (r: Arg) {
        Arg(Some(i64_to_string(*self as i64)))
    }
}

impl IntoArg for bool {
    open spec fn arg_view(self) -> Option<Seq<char>> {
        Some(if self { "true"@ } else { "false"@ })
    }

    fn into_arg(self) -> (r: Arg) {
        Arg(Some(String::from_str(if self { "true" } else { "false" })))
    }

    fn as_arg(&self) -> (r: Arg) {
        Arg(Some(String::from_str(if *self { "true" } else { "false" })))
    }
}

impl<'a> IntoArg for &'a str {
    open spec fn arg_view(self) -> Option<Seq<char>> {
        Some(self@)
    }

    fn into_arg(self) -> (r: Arg) {
        Arg(Some(self.to_owned()))
    }

    fn as_arg(&self) -> (r: Arg) {
        Arg(Some((*self).to_owned()))
    }
}

impl IntoArg for String {
    open spec fn arg_view(self) -> Option<Seq<char>> {
        Some(self@)
    }

    fn into_arg(self) -> (r: Arg) {
        Arg(Some(self))
    }

    fn as_arg(&self) -> (r: Arg) {
        Arg(Some(self.clone()))
    }
}

impl<T: IntoArg> IntoArg for Option<T> {
    open spec fn arg_view(self) -> Option<Seq<char>> {
        match self {
            Some(a) => a.arg_view(),
            None => None,
        }
    }

    fn into_arg(self) -> (r: Arg) {
        match self {
            Some(a) => a.into_arg(),
            None => Arg(None),
        }
    }

    fn as_arg(&self) -> (r: Arg) {
        match self {
            Some(a) => a.as_arg(),
            None => Arg(None),
        }
    }
}

impl IntoArg for Arg {
    open spec fn arg_view(self) -> Option<Seq<char>> {
        self@
    }

    fn into_arg(self) -> (r: Arg) {
        self
    }

    fn as_arg(&self) -> (r: Arg) {
        match &self.0 {
            Some(s) => Arg(Some(s.clone())),
            None => Arg(None),
        }
    }
}

/// The abstract value of one stored pair: key and possibly-absent value.
pub open spec fn pair_view(p: (String, Arg)) -> (Seq<char>, Option<Seq<char>>) {
    (p.0@, p.1@)
}

/// The present pairs of a query, in insertion order, with their values
/// unwrapped. Absent pairs are dropped.
pub open spec fn present_pairs(q: Seq<(Seq<char>, Option<Seq<char>>)>) -> Seq<
    (Seq<char>, Seq<char>),
>
    decreases q.len(),
{
    if q.len() == 0 {
        Seq::empty()
    } else {
        let rest = present_pairs(q.drop_last());
        match q.last().1 {
            Some(v) => rest.push((q.last().0, v)),
            None => rest,
        }
    }
}

/// `key=value` pairs joined by single `&` separators.
pub open spec fn join_pairs(ps: Seq<(Seq<char>, Seq<char>)>) -> Seq<char>
    decreases ps.len(),
{
    if ps.len() == 0 {
        Seq::empty()
    } else if ps.len() == 1 {
        ps[0].0 + seq!['='] + ps[0].1
    } else {
        join_pairs(ps.drop_last()) + seq!['&'] + ps.last().0 + seq!['='] + ps.last().1
    }
}

/// The encoded form of a query: exactly its present pairs, in insertion
/// order, each rendered `key=value`, joined by `&`.
pub open spec fn encoded(q: Seq<(Seq<char>, Option<Seq<char>>)>) -> Seq<char> {
    join_pairs(present_pairs(q))
}

/// An absent pair contributes nothing to the encoded output, wherever it
/// stands: not its key, and no separator.
pub proof fn lemma_encoded_skips_absent(
    q: Seq<(Seq<char>, Option<Seq<char>>)>,
    key: Seq<char>,
)
    ensures
        encoded(q.push((key, None))) == encoded(q),
{
    assert(q.push((key, None)).drop_last() =~= q);
}

/// A present pair appended to a query extends the encoded output by
/// exactly `key=value`, preceded by a single `&` when any earlier pair
/// was present, and by nothing otherwise.
pub proof fn lemma_encoded_appends_present(
    q: Seq<(Seq<char>, Option<Seq<char>>)>,
    key: Seq<char>,
    value: Seq<char>,
)
    ensures
        present_pairs(q).len() == 0 ==> encoded(q.push((key, Some(value)))) == key + seq!['=']
            + value,
        present_pairs(q).len() > 0 ==> encoded(q.push((key, Some(value)))) == encoded(q)
            + seq!['&'] + key + seq!['='] + value,
{
    let p = (key, Some(value));
    assert(q.push(p).drop_last() =~= q);
    let ps = present_pairs(q).push((key, value));
    assert(ps.drop_last() =~= present_pairs(q));
}

/// An expandable, insertion-ordered query set for an API call.
pub struct Query {
    inner: Vec<(String, Arg)>,
}

impl View for Query {
    type V = Seq<(Seq<char>, Option<Seq<char>>)>;

    closed spec fn view(&self) -> Seq<(Seq<char>, Option<Seq<char>>)> {
        self.inner@.map_values(|p: (String, Arg)| pair_view(p))
    }
}

impl Query {
    /// Creates an empty query set to be built on.
    pub fn new() -> (r: Query)
        ensures
            r@ == Seq::<(Seq<char>, Option<Seq<char>>)>::empty(),
    {
        let r = Query { inner: Vec::new() };
        proof {
            assert(r@ =~= Seq::<(Seq<char>, Option<Seq<char>>)>::empty());
        }
        r
    }

    /// A blank query for API calls that take no additional arguments: a
    /// single absent pair, so the encoded output is empty.
    pub fn none() -> (r: Query)
        ensures
            r@ =~= seq![(Seq::<char>::empty(), Option::<Seq<char>>::None)],
            encoded(r@) == Seq::<char>::empty(),
    {
        let mut inner: Vec<(String, Arg)> = Vec::new();
        inner.push((String::new(), Arg(None)));
        let r = Query { inner };
        proof {
            assert(r@ =~= seq![(Seq::<char>::empty(), Option::<Seq<char>>::None)]);
            assert(r@.drop_last() =~= Seq::<(Seq<char>, Option<Seq<char>>)>::empty());
            assert(present_pairs(Seq::<(Seq<char>, Option<Seq<char>>)>::empty())
                =~= Seq::<(Seq<char>, Seq<char>)>::empty());
            assert(present_pairs(r@) =~= Seq::<(Seq<char>, Seq<char>)>::empty());
            assert(encoded(r@) =~= Seq::<char>::empty());
        }
        r
    }

    /// Creates a new query holding one initial argument.
    pub fn with<A: IntoArg>(key: &str, value: A) -> (r: Query)
        ensures
            r@ =~= seq![(key@, value.arg_view())],
    {
        let mut inner: Vec<(String, Arg)> = Vec::new();
        inner.push((key.to_owned(), value.into_arg()));
        let r = Query { inner };
        proof {
            assert(r@ =~= seq![(key@, value.arg_view())]);
        }
        r
    }

    /// Appends an argument to the query.
    pub fn arg<A: IntoArg>(&mut self, key: &str, value: A) -> (r: &mut Query)
        ensures
            (*r)@ == old(self)@.push((key@, value.arg_view())),
            *final(self) == *final(r),
    {
        self.inner.push((key.to_owned(), value.into_arg()));
        proof {
            assert(self@ =~= old(self)@.push((key@, value.arg_view())));
        }
        self
    }

    /// Appends one argument per element of `values`, all under `key`, in
    /// the order given.
    pub fn arg_list<A: IntoArg + Clone>(&mut self, key: &str, values: &[A]) -> (r: &mut Query)
        ensures
            (*r)@ == old(self)@ + Seq::new(values@.len(), |i: int| (key@, values@[i].arg_view())),
            *final(self) == *final(r),
    {
        let ghost added = Seq::new(values@.len(), |i: int| (key@, values@[i].arg_view()));
        let mut idx: usize = 0;
        proof {
            assert(self@ =~= old(self)@ + added.take(0));
        }
        while idx < values.len()
            invariant
                0 <= idx <= values@.len(),
                added == Seq::new(values@.len(), |i: int| (key@, values@[i].arg_view())),
                self@ == old(self)@ + added.take(idx as int),
            decreases values@.len() - idx,
        {
            let a = values[idx].as_arg();
            let k = key.to_owned();
            proof {
                assert(0 <= idx < added.len());
                assert(a@ == values@[idx as int].arg_view());
                assert(k@ == key@);
                assert(pair_view((k, a)) == added[idx as int]);
            }
            let ghost pre = self.inner@;
            self.inner.push((k, a));
            proof {
                assert(self.inner@ == pre.push((k, a)));
                assert(added.take(idx as int + 1) =~= added.take(idx as int).push(
                    added[idx as int],
                ));
                assert(self@ =~= (old(self)@ + added.take(idx as int)).push(added[idx as int]));
                assert(self@ =~= old(self)@ + added.take(idx as int + 1));
            }
            idx += 1;
        }
        proof {
            assert(self@ =~= old(self)@ + added);
        }
        self
    }

    /// Takes the accumulated arguments, leaving the builder empty.
    pub fn build(&mut self) -> (r: Query)
        ensures
            r@ == old(self)@,
            final(self)@ == Seq::<(Seq<char>, Option<Seq<char>>)>::empty(),
    {
        let mut inner: Vec<(String, Arg)> = Vec::new();
        core::mem::swap(&mut inner, &mut self.inner);
        proof {
            assert(self@ =~= Seq::<(Seq<char>, Option<Seq<char>>)>::empty());
        }
        Query { inner }
    }

    /// Appends every pair of `other`, in order, after the pairs already
    /// held.
    pub fn extend(&mut self, other: Query)
        ensures
            final(self)@ == old(self)@ + other@,
    {
        let mut tail = other;
        self.inner.append(&mut tail.inner);
        proof {
            assert(self@ =~= old(self)@ + other@);
        }
    }

    /// Encodes the query: its present pairs in insertion order, each as
    /// `key=value`, joined by `&`. Absent pairs are omitted entirely.
    pub fn to_string(&self) -> (r: String)
        ensures
            r@ == encoded(self@),
    {
        let mut out = String::new();
        let mut wrote = false;
        let mut idx: usize = 0;
        proof {
            assert(self@.take(0) =~= Seq::<(Seq<char>, Option<Seq<char>>)>::empty());
        }
        while idx < self.inner.len()
            invariant
                0 <= idx <= self.inner.len(),
                self.inner@.len() == self@.len(),
                out@ == encoded(self@.take(idx as int)),
                wrote == (present_pairs(self@.take(idx as int)).len() > 0),
            decreases self.inner@.len() - idx,
        {
            let pair = &self.inner[idx];
            match &pair.1.0 {
                Some(v) => {
                    if wrote {
                        out.append("&");
                    }
                    out.append(pair.0.as_str());
                    out.append("=");
                    out.append(v.as_str());
                    proof {
                        reveal_strlit("&");
                        reveal_strlit("=");
                        let prefix = self@.take(idx as int);
                        let next = self@.take(idx as int + 1);
                        assert(next.drop_last() =~= prefix);
                        assert(next.last() == self@[idx as int]);
                        lemma_encoded_appends_present(prefix, pair.0@, v@);
                        assert(next =~= prefix.push((pair.0@, Some(v@))));
                        assert(out@ =~= encoded(next));
                    }
                    wrote = true;
                },
                None => {
                    proof {
                        let prefix = self@.take(idx as int);
                        let next = self@.take(idx as int + 1);
                        assert(next.drop_last() =~= prefix);
                        assert(next =~= prefix.push((pair.0@, Option::<Seq<char>>::None)));
                        lemma_encoded_skips_absent(prefix, pair.0@);
                    }
                },
            }
            idx += 1;
        }
        proof {
            assert(self@.take(self@.len() as int) =~= self@);
        }
        out
    }
}

impl Default for Query {
    fn default() -> (r: Query)
        ensures
            r@ == Seq::<(Seq<char>, Option<Seq<char>>)>::empty(),
    {
        Query::new()
    }
}

} // verus!
