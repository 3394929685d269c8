//! The knowledge component data model: a category chain (`Component`), a
//! time-stamped classified token (`KnowledgeComponent`), and the
//! insertion-ordered registry deduplicated by token kind, together with the
//! proved registry laws.

use vstd::prelude::*;
use vstd::string::StringExecFns;

use crate::strutil::ascii_lower;
use crate::strutil::spec_lower;
use crate::strutil::str_eq;

verus! {

/// One node of a category chain: a category name and at most one child, so
/// the chain is linear, outermost (root) category first.
pub struct Component {
    pub name: String,
    pub node: Box<Option<Component>>,
}

/// The category names of the chain rooted at `c`, root first, ending with the
/// leaf (the token's own literal representation).
pub open spec fn chain_of(c: Component) -> Seq<Seq<char>>
    decreases c,
{
    seq![c.name@] + match *c.node {
        Some(child) => chain_of(child),
        None => Seq::<Seq<char>>::empty(),
    }
}

impl View for Component {
    type V = Seq<Seq<char>>;

    open spec fn view(&self) -> Seq<Seq<char>> {
        chain_of(*self)
    }
}

impl Component {
    /// Wraps `node` (the chain built so far, innermost part) in a new
    /// outermost category named `name`.
    pub fn new(name: &str, node: Option<Component>) -> (r: Component)
        ensures
            r@ == seq![name@] + match node {
                Some(child) => child@,
                None => Seq::<Seq<char>>::empty(),
            },
    {
        Component { name: name.to_owned(), node: Box::new(node) }
    }
}

impl Clone for Component {
    fn clone(&self) -> (r: Self)
        ensures
            r@ == self@,
        decreases *self,
    {
        Component {
            name: self.name.clone(),
            node: Box::new(
                match &*self.node {
                    Some(child) => Some(child.clone()),
                    None => None,
                },
            ),
        }
    }
}

/// The mathematical model of a knowledge component.
pub ghost struct KnowledgeComponentV {
    /// The token kind, the sole identity key of the component.
    pub token: Seq<char>,
    /// The display value: the token text, lower-cased (or a captured literal
    /// text).
    pub value: Seq<char>,
    /// The source URL with the appended time-offset parameter.
    pub time_stamp: Seq<char>,
    /// The category chain, root first.
    pub classification: Seq<Seq<char>>,
}

/// A deduplicated, time-stamped record of one distinct programming-language
/// concept: identified by its token kind, carrying the first-seen time stamp
/// and category chain.
pub struct KnowledgeComponent {
    token: String,
    value: String,
    time_stamp: String,
    classification: Component,
}

impl View for KnowledgeComponent {
    type V = KnowledgeComponentV;

    closed spec fn view(&self) -> KnowledgeComponentV {
        KnowledgeComponentV {
            token: self.token@,
            value: self.value@,
            time_stamp: self.time_stamp@,
            classification: self.classification@,
        }
    }
}

impl KnowledgeComponent {
    /// Builds a component for the token named `value`: the token kind is the
    /// name itself and the display value is its lower-cased form.
    pub fn new(classification: Component, value: &str, time_stamp: &str) -> (r: Self)
        ensures
            r@ == (KnowledgeComponentV {
                token: value@,
                value: spec_lower(value@),
                time_stamp: time_stamp@,
                classification: classification@,
            }),
    {
        KnowledgeComponent {
            token: value.to_owned(),
            value: ascii_lower(value),
            time_stamp: time_stamp.to_owned(),
            classification,
        }
    }

    /// Builds a component whose display value is a captured literal text
    /// `ident` rather than the lower-cased token name.
    pub fn new_with_ident(classification: Component, value: &str, ident: &str, time_stamp: &str) -> (r:
        Self)
        ensures
            r@ == (KnowledgeComponentV {
                token: value@,
                value: ident@,
                time_stamp: time_stamp@,
                classification: classification@,
            }),
    {
        KnowledgeComponent {
            token: value.to_owned(),
            value: ident.to_owned(),
            time_stamp: time_stamp.to_owned(),
            classification,
        }
    }

    /// The token kind, the identity key.
    pub fn token(&self) -> (r: &String)
        ensures
            r@ == self@.token,
    {
        &self.token
    }

    /// The display value.
    pub fn value(&self) -> (r: &String)
        ensures
            r@ == self@.value,
    {
        &self.value
    }

    /// The timestamp URL of the first occurrence.
    pub fn time_stamp(&self) -> (r: &String)
        ensures
            r@ == self@.time_stamp,
    {
        &self.time_stamp
    }

    /// The category chain.
    pub fn classification(&self) -> (r: &Component)
        ensures
            r@ == self@.classification,
    {
        &self.classification
    }
}

impl Clone for KnowledgeComponent {
    fn clone(&self) -> (r: Self)
        ensures
            r@ == self@,
    {
        KnowledgeComponent {
            token: self.token.clone(),
            value: self.value.clone(),
            time_stamp: self.time_stamp.clone(),
            classification: self.classification.clone(),
        }
    }
}

/// The model of a registry: the component views in insertion order.
pub open spec fn kcs_view(s: Seq<KnowledgeComponent>) -> Seq<KnowledgeComponentV> {
    s.map_values(|k: KnowledgeComponent| k@)
}

/// Some entry of `reg` has token kind `t`.
pub open spec fn reg_has_token(reg: Seq<KnowledgeComponentV>, t: Seq<char>) -> bool {
    exists|j: int| 0 <= j < reg.len() && (#[trigger] reg[j]).token == t
}

/// Inserting into the registry: a no-op when the token kind is already
/// present, else an append at the end.
pub open spec fn spec_insert(reg: Seq<KnowledgeComponentV>, kc: KnowledgeComponentV) -> Seq<
    KnowledgeComponentV,
> {
    if reg_has_token(reg, kc.token) {
        reg
    } else {
        reg.push(kc)
    }
}

/// Left-to-right insertion of a stream of components.
pub open spec fn spec_insert_all(
    reg: Seq<KnowledgeComponentV>,
    cs: Seq<KnowledgeComponentV>,
) -> Seq<KnowledgeComponentV>
    decreases cs.len(),
{
    if cs.len() == 0 {
        reg
    } else {
        spec_insert(spec_insert_all(reg, cs.drop_last()), cs.last())
    }
}

/// No two entries share a token kind.
pub open spec fn tokens_distinct(reg: Seq<KnowledgeComponentV>) -> bool {
    forall|p: int, q: int|
        0 <= p < q < reg.len() ==> (#[trigger] reg[p]).token != (#[trigger] reg[q]).token
}

/// `cs[i]` is the first component of the stream with its token kind.
pub open spec fn is_first_occurrence(cs: Seq<KnowledgeComponentV>, i: int) -> bool {
    0 <= i < cs.len() && forall|j: int| 0 <= j < i ==> (#[trigger] cs[j]).token != cs[i].token
}

/// How many of the first `i` components of `cs` are first occurrences of a
/// token kind that `reg` does not already hold: the position offset at which
/// `cs[i]` lands when inserted.
pub open spec fn count_new_firsts(
    reg: Seq<KnowledgeComponentV>,
    cs: Seq<KnowledgeComponentV>,
    i: int,
) -> int
    decreases i,
{
    if i <= 0 {
        0
    } else {
        count_new_firsts(reg, cs, i - 1) + if is_first_occurrence(cs, i - 1) && !reg_has_token(
            reg,
            cs[i - 1].token,
        ) {
            1int
        } else {
            0int
        }
    }
}

/// Inserts `kc` into the registry vector: a no-op when an entry with the same
/// token kind exists, else a push; the first-seen entry is never replaced.
pub fn registry_insert(reg: &mut Vec<KnowledgeComponent>, kc: KnowledgeComponent)
    ensures
        kcs_view(final(reg)@) == spec_insert(kcs_view(old(reg)@), kc@),
{
    let n = reg.len();
    let mut i: usize = 0;
    while i < n
        invariant
            n == reg.len(),
            i <= n,
            reg@ == old(reg)@,
            forall|k: int| 0 <= k < i ==> (#[trigger] reg@[k])@.token != kc@.token,
        decreases n - i,
    {
        if str_eq(reg[i].token.as_str(), kc.token.as_str()) {
            proof {
                assert(kcs_view(reg@)[i as int].token == kc@.token);
                assert(reg_has_token(kcs_view(reg@), kc@.token));
            }
            return ;
        }
        i = i + 1;
    }
    proof {
        assert(forall|j: int|
            0 <= j < reg.len() ==> (#[trigger] kcs_view(reg@)[j]).token != kc@.token);
        assert(!reg_has_token(kcs_view(reg@), kc@.token));
    }
    let ghost old_view = kcs_view(reg@);
    reg.push(kc);
    proof {
        assert(kcs_view(reg@) =~= old_view.push(kc@));
    }
}

/// Clones a registry vector entry by entry.
pub fn clone_components(reg: &Vec<KnowledgeComponent>) -> (r: Vec<KnowledgeComponent>)
    ensures
        kcs_view(r@) == kcs_view(reg@),
{
    let mut r: Vec<KnowledgeComponent> = Vec::new();
    let mut i: usize = 0;
    while i < reg.len()
        invariant
            i <= reg.len(),
            r@.len() == i,
            forall|k: int| 0 <= k < i ==> (#[trigger] r@[k])@ == reg@[k]@,
        decreases reg.len() - i,
    {
        r.push(reg[i].clone());
        i = i + 1;
    }
    proof {
        assert(kcs_view(r@) =~= kcs_view(reg@));
    }
    r
}

/// Unfolding step of `spec_insert_all`: appending one more component to the
/// stream inserts it after all the earlier ones.
pub proof fn lemma_insert_all_push(
    reg: Seq<KnowledgeComponentV>,
    cs: Seq<KnowledgeComponentV>,
    c: KnowledgeComponentV,
)
    ensures
        spec_insert_all(reg, cs.push(c)) == spec_insert(spec_insert_all(reg, cs), c),
{
    assert(cs.push(c).drop_last() =~= cs);
    assert(cs.push(c).last() == c);
}

/// Law (composition): inserting two component streams one after the other is
/// inserting their concatenation, so the registry after a sequence of parsed
/// fragments is the registry of the concatenated component stream.
pub proof fn lemma_insert_all_concat(
    reg: Seq<KnowledgeComponentV>,
    cs1: Seq<KnowledgeComponentV>,
    cs2: Seq<KnowledgeComponentV>,
)
    ensures
        spec_insert_all(reg, cs1 + cs2) == spec_insert_all(spec_insert_all(reg, cs1), cs2),
    decreases cs2.len(),
{
    if cs2.len() == 0 {
        assert(cs1 + cs2 =~= cs1);
    } else {
        let cs2x = cs2.drop_last();
        let c = cs2.last();
        lemma_insert_all_concat(reg, cs1, cs2x);
        assert((cs1 + cs2).drop_last() =~= cs1 + cs2x);
        assert((cs1 + cs2).last() == c);
    }
}

/// The timestamp URL: the source URL with the time offset appended as a
/// query parameter.
pub open spec fn spec_time_stamp(url: Seq<char>, t: int) -> Seq<char> {
    url + "&t="@ + crate::strutil::spec_int_string(t)
}

/// Builds the timestamp URL for a fragment's time offset.
pub fn make_time_stamp(url: &str, t: i32) -> (r: String)
    ensures
        r@ == spec_time_stamp(url@, t as int),
{
    let mut r = url.to_owned();
    r.append("&t=");
    r.append(crate::strutil::i32_string(t).as_str());
    proof {
        assert(r@ =~= spec_time_stamp(url@, t as int));
    }
    r
}

proof fn lemma_insert_all_has_token(
    reg: Seq<KnowledgeComponentV>,
    cs: Seq<KnowledgeComponentV>,
    t: Seq<char>,
)
    ensures
        reg_has_token(spec_insert_all(reg, cs), t) <==> (reg_has_token(reg, t) || reg_has_token(
            cs,
            t,
        )),
    decreases cs.len(),
{
    if cs.len() == 0 {
        assert(!reg_has_token(cs, t));
    } else {
        let cs0 = cs.drop_last();
        let c = cs.last();
        lemma_insert_all_has_token(reg, cs0, t);
        let a = spec_insert_all(reg, cs0);
        assert(forall|j: int| 0 <= j < cs0.len() ==> #[trigger] cs0[j] == cs[j]);
        if reg_has_token(cs0, t) {
            assert(reg_has_token(cs, t));
        }
        if reg_has_token(cs, t) && !reg_has_token(cs0, t) {
            let j = choose|j: int| 0 <= j < cs.len() && (#[trigger] cs[j]).token == t;
            if j < cs.len() - 1 {
                assert(cs0[j] == cs[j]);
                assert(reg_has_token(cs0, t));
                assert(false);
            }
            assert(c == cs[cs.len() - 1]);
            assert(c.token == t);
        }
        if reg_has_token(a, c.token) {
            assert(spec_insert_all(reg, cs) == a);
        } else {
            assert(spec_insert_all(reg, cs) == a.push(c));
            assert(forall|j: int| 0 <= j < a.len() ==> #[trigger] a.push(c)[j] == a[j]);
            assert(a.push(c)[a.len() as int] == c);
            if reg_has_token(a, t) {
                let j = choose|j: int| 0 <= j < a.len() && (#[trigger] a[j]).token == t;
                assert(a.push(c)[j].token == t);
            }
        }
    }
}

proof fn lemma_insert_all_distinct(reg: Seq<KnowledgeComponentV>, cs: Seq<KnowledgeComponentV>)
    requires
        tokens_distinct(reg),
    ensures
        tokens_distinct(spec_insert_all(reg, cs)),
    decreases cs.len(),
{
    if cs.len() == 0 {
    } else {
        let cs0 = cs.drop_last();
        let c = cs.last();
        lemma_insert_all_distinct(reg, cs0);
        let a = spec_insert_all(reg, cs0);
        if !reg_has_token(a, c.token) {
            assert(forall|p: int| 0 <= p < a.len() ==> (#[trigger] a[p]).token != c.token);
            assert(forall|p: int| 0 <= p < a.len() ==> #[trigger] a.push(c)[p] == a[p]);
            assert(a.push(c)[a.len() as int] == c);
            assert(tokens_distinct(a.push(c)));
        }
    }
}

proof fn lemma_insert_all_prefix(reg: Seq<KnowledgeComponentV>, cs: Seq<KnowledgeComponentV>)
    ensures
        spec_insert_all(reg, cs).len() >= reg.len(),
        forall|k: int| 0 <= k < reg.len() ==> #[trigger] spec_insert_all(reg, cs)[k] == reg[k],
    decreases cs.len(),
{
    if cs.len() == 0 {
    } else {
        let cs0 = cs.drop_last();
        let c = cs.last();
        lemma_insert_all_prefix(reg, cs0);
        let a = spec_insert_all(reg, cs0);
        if !reg_has_token(a, c.token) {
            assert(forall|k: int| 0 <= k < a.len() ==> #[trigger] a.push(c)[k] == a[k]);
        }
    }
}

proof fn lemma_first_occurrence_prefix(cs: Seq<KnowledgeComponentV>, i: int)
    requires
        cs.len() > 0,
        0 <= i < cs.len() - 1,
    ensures
        is_first_occurrence(cs.drop_last(), i) == is_first_occurrence(cs, i),
{
    let cs0 = cs.drop_last();
    assert(forall|j: int| 0 <= j < cs0.len() ==> #[trigger] cs0[j] == cs[j]);
    assert(cs0[i] == cs[i]);
    if is_first_occurrence(cs, i) {
        assert forall|j: int| 0 <= j < i implies (#[trigger] cs0[j]).token != cs0[i].token by {
            assert(cs0[j] == cs[j]);
        }
        assert(is_first_occurrence(cs0, i));
    }
    if is_first_occurrence(cs0, i) {
        assert forall|j: int| 0 <= j < i implies (#[trigger] cs[j]).token != cs[i].token by {
            assert(cs0[j] == cs[j]);
        }
        assert(is_first_occurrence(cs, i));
    }
}

proof fn lemma_cnf_prefix(
    reg: Seq<KnowledgeComponentV>,
    cs: Seq<KnowledgeComponentV>,
    i: int,
)
    requires
        cs.len() > 0,
        0 <= i <= cs.len() - 1,
    ensures
        count_new_firsts(reg, cs.drop_last(), i) == count_new_firsts(reg, cs, i),
    decreases i,
{
    if i <= 0 {
    } else {
        lemma_cnf_prefix(reg, cs, i - 1);
        lemma_first_occurrence_prefix(cs, i - 1);
        assert(cs.drop_last()[i - 1] == cs[i - 1]);
    }
}

proof fn lemma_insert_all_len(reg: Seq<KnowledgeComponentV>, cs: Seq<KnowledgeComponentV>)
    ensures
        spec_insert_all(reg, cs).len() == reg.len() + count_new_firsts(reg, cs, cs.len() as int),
    decreases cs.len(),
{
    if cs.len() == 0 {
    } else {
        let cs0 = cs.drop_last();
        let c = cs.last();
        let n = cs.len() - 1;
        lemma_insert_all_len(reg, cs0);
        lemma_cnf_prefix(reg, cs, n);
        let a = spec_insert_all(reg, cs0);
        lemma_insert_all_has_token(reg, cs0, c.token);
        assert(forall|j: int| 0 <= j < cs0.len() ==> #[trigger] cs0[j] == cs[j]);
        assert(c == cs[n]);
        assert(count_new_firsts(reg, cs, n + 1) == count_new_firsts(reg, cs, n)
            + if is_first_occurrence(cs, n) && !reg_has_token(reg, cs[n].token) {
                1int
            } else {
                0int
            });
        if reg_has_token(a, c.token) {
            // the final component is not a new first: its token is in reg or in cs0
            if reg_has_token(cs0, c.token) {
                let j = choose|j: int| 0 <= j < cs0.len() && (#[trigger] cs0[j]).token == c.token;
                assert(cs0[j] == cs[j]);
                assert(cs[j].token == cs[n].token);
                assert(!is_first_occurrence(cs, n));
            }
        } else {
            assert(!reg_has_token(reg, c.token));
            assert(!reg_has_token(cs0, c.token));
            assert forall|j: int| 0 <= j < n implies (#[trigger] cs[j]).token != cs[n].token by {
                assert(cs0[j] == cs[j]);
                if cs[j].token == cs[n].token {
                    assert(reg_has_token(cs0, c.token));
                }
            }
            assert(is_first_occurrence(cs, n));
        }
    }
}

proof fn lemma_insert_all_position(
    reg: Seq<KnowledgeComponentV>,
    cs: Seq<KnowledgeComponentV>,
    i: int,
)
    requires
        is_first_occurrence(cs, i),
        !reg_has_token(reg, cs[i].token),
    ensures
        reg.len() + count_new_firsts(reg, cs, i) < spec_insert_all(reg, cs).len(),
        spec_insert_all(reg, cs)[reg.len() + count_new_firsts(reg, cs, i)] == cs[i],
    decreases cs.len(),
{
    let cs0 = cs.drop_last();
    let c = cs.last();
    let n = cs.len() - 1;
    let a = spec_insert_all(reg, cs0);
    assert(forall|j: int| 0 <= j < cs0.len() ==> #[trigger] cs0[j] == cs[j]);
    if i < n {
        lemma_first_occurrence_prefix(cs, i);
        assert(cs0[i] == cs[i]);
        lemma_insert_all_position(reg, cs0, i);
        lemma_cnf_prefix(reg, cs, i);
        lemma_cnf_mono(reg, cs, 0, i);
        let p = reg.len() + count_new_firsts(reg, cs, i);
        assert(a[p] == cs[i]);
        if !reg_has_token(a, c.token) {
            assert(spec_insert_all(reg, cs) == a.push(c));
            assert(p < a.len());
            assert(a.push(c)[p] == a[p]);
            assert(a.push(c)[p] == cs[i]);
        } else {
            assert(spec_insert_all(reg, cs) == a);
        }
    } else {
        assert(i == n);
        assert(c == cs[i]);
        lemma_insert_all_len(reg, cs0);
        lemma_cnf_prefix(reg, cs, n);
        lemma_insert_all_has_token(reg, cs0, c.token);
        if reg_has_token(cs0, c.token) {
            let j = choose|j: int| 0 <= j < cs0.len() && (#[trigger] cs0[j]).token == c.token;
            assert(cs0[j] == cs[j]);
            assert(false);
        }
        assert(!reg_has_token(a, c.token));
        assert(spec_insert_all(reg, cs) == a.push(c));
        assert(a.push(c)[a.len() as int] == c);
    }
}

proof fn lemma_cnf_mono(
    reg: Seq<KnowledgeComponentV>,
    cs: Seq<KnowledgeComponentV>,
    i: int,
    j: int,
)
    requires
        0 <= i <= j,
    ensures
        count_new_firsts(reg, cs, i) <= count_new_firsts(reg, cs, j),
        i < j && is_first_occurrence(cs, i) && !reg_has_token(reg, cs[i].token)
            ==> count_new_firsts(reg, cs, i) < count_new_firsts(reg, cs, j),
    decreases j - i,
{
    if i < j {
        lemma_cnf_mono(reg, cs, i + 1, j);
    }
}

/// Law: a registry built by inserting any stream of components holds at most
/// one entry per token kind.
pub proof fn lemma_registry_tokens_distinct(cs: Seq<KnowledgeComponentV>)
    ensures
        tokens_distinct(spec_insert_all(Seq::empty(), cs)),
{
    lemma_insert_all_distinct(Seq::empty(), cs);
}

/// Law (dedup by first occurrence): when two components of the stream share a
/// token kind, the registry holds exactly one entry for that kind, and it is
/// the earlier component, with its time stamp and chain.
pub proof fn lemma_registry_first_occurrence_kept(cs: Seq<KnowledgeComponentV>, i: int, j: int)
    requires
        0 <= i < j < cs.len(),
        cs[i].token == cs[j].token,
        is_first_occurrence(cs, i),
    ensures
        ({
            let reg = spec_insert_all(Seq::empty(), cs);
            let p = count_new_firsts(Seq::empty(), cs, i);
            &&& 0 <= p < reg.len()
            &&& reg[p] == cs[i]
            &&& forall|q: int|
                0 <= q < reg.len() && (#[trigger] reg[q]).token == cs[i].token ==> q == p
        }),
{
    let reg = spec_insert_all(Seq::empty(), cs);
    let p = count_new_firsts(Seq::empty(), cs, i);
    assert(!reg_has_token(Seq::empty(), cs[i].token));
    lemma_insert_all_position(Seq::empty(), cs, i);
    lemma_cnf_mono(Seq::empty(), cs, 0, i);
    lemma_registry_tokens_distinct(cs);
    assert(reg[p] == cs[i]);
    assert forall|q: int|
        0 <= q < reg.len() && (#[trigger] reg[q]).token == cs[i].token implies q == p by {
        if q < p {
            assert(reg[q].token != reg[p].token);
        }
        if p < q {
            assert(reg[p].token != reg[q].token);
        }
    }
}

/// Law (insertion-order preservation): two first occurrences of distinct
/// token kinds appear in the registry in their stream order.
pub proof fn lemma_registry_insertion_order(cs: Seq<KnowledgeComponentV>, i: int, j: int)
    requires
        0 <= i < j < cs.len(),
        is_first_occurrence(cs, i),
        is_first_occurrence(cs, j),
    ensures
        ({
            let reg = spec_insert_all(Seq::empty(), cs);
            let p = count_new_firsts(Seq::empty(), cs, i);
            let q = count_new_firsts(Seq::empty(), cs, j);
            &&& 0 <= p < q < reg.len()
            &&& reg[p] == cs[i]
            &&& reg[q] == cs[j]
        }),
{
    assert(!reg_has_token(Seq::empty(), cs[i].token));
    assert(!reg_has_token(Seq::empty(), cs[j].token));
    lemma_insert_all_position(Seq::empty(), cs, i);
    lemma_insert_all_position(Seq::empty(), cs, j);
    lemma_cnf_mono(Seq::empty(), cs, 0, i);
    lemma_cnf_mono(Seq::empty(), cs, i, j);
}

} // verus!
