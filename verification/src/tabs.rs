//! Tabs as the host reports them, and the canonical order in which the
//! picker lists them.

use crate::text::{
    lemma_lex_le_antisymmetric, lemma_lex_le_reflexive, lemma_lex_le_total,
    lemma_lex_le_transitive, lex_le, str_le,
};
use vstd::prelude::*;
use vstd::relations::{sorted_by, total_ordering};
use vstd::seq_lib::{lemma_multiset_commutative, lemma_sorted_unique, to_multiset_insert};

verus! {

/// One tab as the host reports it.
#[derive(Debug)]
pub struct TabInfo {
    /// The stable handle by which the host focuses the tab.
    pub position: usize,
    /// The tab's name.
    pub name: String,
    /// Whether this is the tab that is focused in the host right now.
    pub active: bool,
}

/// The mathematical value of a [`TabInfo`].
pub ghost struct TabInfoView {
    pub position: usize,
    pub name: Seq<char>,
    pub active: bool,
}

impl View for TabInfo {
    type V = TabInfoView;

    open spec fn view(&self) -> TabInfoView {
        TabInfoView { position: self.position, name: self.name@, active: self.active }
    }
}

/// The values of a sequence of tabs.
pub open spec fn tab_views(tabs: Seq<TabInfo>) -> Seq<TabInfoView> {
    tabs.map_values(|t: TabInfo| t@)
}

/// The canonical order of tabs: the active tab after every other tab, the
/// others by name, and tabs of one name by position.
pub open spec fn tab_le(a: TabInfoView, b: TabInfoView) -> bool {
    if a.active != b.active {
        b.active
    } else if a.name != b.name {
        lex_le(a.name, b.name)
    } else {
        a.position <= b.position
    }
}

/// [`tab_le`] as a relation.
pub open spec fn tab_order() -> spec_fn(TabInfoView, TabInfoView) -> bool {
    |a: TabInfoView, b: TabInfoView| tab_le(a, b)
}

/// Whether `ordered` holds exactly the tabs of `given`, in canonical order.
pub open spec fn is_canonical_order(given: Seq<TabInfoView>, ordered: Seq<TabInfoView>) -> bool {
    &&& sorted_by(ordered, tab_order())
    &&& ordered.to_multiset() == given.to_multiset()
}

/// The canonical order is a total order on tabs.
pub proof fn lemma_tab_order_total()
    ensures
        total_ordering(tab_order()),
{
    let r = tab_order();
    assert forall|x: TabInfoView| #[trigger] r(x, x) by {
        lemma_lex_le_reflexive(x.name);
    }
    assert forall|x: TabInfoView, y: TabInfoView| #[trigger] r(x, y) && #[trigger] r(y, x) implies x
        == y by {
        if x.name != y.name {
            lemma_lex_le_antisymmetric(x.name, y.name);
        }
    }
    assert forall|x: TabInfoView, y: TabInfoView, z: TabInfoView| #[trigger]
        r(x, y) && #[trigger] r(y, z) implies r(x, z) by {
        if x.active == y.active && y.active == z.active {
            if x.name != y.name && y.name != z.name {
                lemma_lex_le_transitive(x.name, y.name, z.name);
                if x.name == z.name {
                    lemma_lex_le_antisymmetric(x.name, y.name);
                }
            }
        }
    }
    assert forall|x: TabInfoView, y: TabInfoView| #[trigger] r(x, y) || #[trigger] r(y, x) by {
        lemma_lex_le_total(x.name, y.name);
    }
}

/// Compares two tabs in the canonical order.
fn tab_le_exec(a: &TabInfo, b: &TabInfo) -> (r: bool)
    ensures
        r == tab_le(a@, b@),
{
    if a.active != b.active {
        b.active
    } else if a.name != b.name {
        str_le(a.name.as_str(), b.name.as_str())
    } else {
        a.position <= b.position
    }
}

/// Puts the tabs into canonical order.
pub fn canonical_order(tab_infos: Vec<TabInfo>) -> (ordered: Vec<TabInfo>)
    ensures
        is_canonical_order(tab_views(tab_infos@), tab_views(ordered@)),
{
    let ghost given = tab_views(tab_infos@);
    let mut rest = tab_infos;
    let mut ordered: Vec<TabInfo> = Vec::new();
    proof {
        lemma_tab_order_total();
        lemma_multiset_commutative(tab_views(ordered@), given);
        assert(tab_views(ordered@) + given =~= given);
    }
    while rest.len() > 0
        invariant
            total_ordering(tab_order()),
            sorted_by(tab_views(ordered@), tab_order()),
            tab_views(ordered@).to_multiset().add(tab_views(rest@).to_multiset())
                == given.to_multiset(),
        decreases rest.len(),
    {
        let ghost rest_before = tab_views(rest@);
        let ghost ordered_before = tab_views(ordered@);
        let item = rest.pop().unwrap();
        let mut k: usize = 0;
        while k < ordered.len() && tab_le_exec(&ordered[k], &item)
            invariant
                k <= ordered.len(),
                ordered_before == tab_views(ordered@),
                forall|j: int| 0 <= j < k ==> tab_order()(#[trigger] ordered_before[j], item@),
            decreases ordered.len() - k,
        {
            k += 1;
        }
        ordered.insert(k, item);
        proof {
            let after = tab_views(ordered@);
            assert(after =~= ordered_before.insert(k as int, item@));
            assert(rest_before =~= tab_views(rest@).push(item@));
            to_multiset_insert(ordered_before, k as int, item@);
            tab_views(rest@).to_multiset_ensures();
            assert(after.to_multiset().add(tab_views(rest@).to_multiset()) =~= ordered_before.to_multiset().add(
                rest_before.to_multiset(),
            ));
            assert forall|i: int, j: int| 0 <= i < j < after.len() implies #[trigger] tab_order()(
                after[i],
                after[j],
            ) by {
                if j == k {
                    assert(tab_order()(ordered_before[i], item@));
                } else if i == k {
                    // the first tab that is not at or before the new one comes after it
                    assert(!tab_order()(ordered_before[k as int], item@));
                    assert(tab_order()(item@, ordered_before[k as int]));
                    if j - 1 > k {
                        assert(tab_order()(ordered_before[k as int], ordered_before[j - 1]));
                    }
                } else {
                    let i0 = if i < k { i } else { i - 1 };
                    let j0 = if j < k { j } else { j - 1 };
                    assert(tab_order()(ordered_before[i0], ordered_before[j0]));
                }
            }
        }
    }
    proof {
        lemma_multiset_commutative(tab_views(ordered@), tab_views(rest@));
        assert(tab_views(ordered@) + tab_views(rest@) =~= tab_views(ordered@));
    }
    ordered
}

/// The canonical order does not depend on the order in which the host
/// reports the tabs: two reports of the same tabs are ordered alike.
pub proof fn lemma_canonical_order_unique(
    first_report: Seq<TabInfoView>,
    second_report: Seq<TabInfoView>,
    first_ordered: Seq<TabInfoView>,
    second_ordered: Seq<TabInfoView>,
)
    requires
        first_report.to_multiset() == second_report.to_multiset(),
        is_canonical_order(first_report, first_ordered),
        is_canonical_order(second_report, second_ordered),
    ensures
        first_ordered == second_ordered,
{
    lemma_tab_order_total();
    lemma_sorted_unique(first_ordered, second_ordered, tab_order());
}

/// In canonical order no active tab stands before an inactive one, and the
/// inactive tabs ascend by name.
pub proof fn lemma_canonical_order_shape(given: Seq<TabInfoView>, ordered: Seq<TabInfoView>)
    requires
        is_canonical_order(given, ordered),
    ensures
        ordered.len() == given.len(),
        forall|i: int, j: int|
            0 <= i < j < ordered.len() && (#[trigger] ordered[i]).active ==> (
            #[trigger] ordered[j]).active,
        forall|i: int, j: int|
            0 <= i < j < ordered.len() && !(#[trigger] ordered[j]).active ==> lex_le(
                (#[trigger] ordered[i]).name,
                ordered[j].name,
            ),
{
    given.to_multiset_ensures();
    ordered.to_multiset_ensures();
    assert forall|i: int, j: int| 0 <= i < j < ordered.len() implies ((#[trigger] ordered[i]).active
        ==> (#[trigger] ordered[j]).active) && (!ordered[j].active ==> lex_le(
        ordered[i].name,
        ordered[j].name,
    )) by {
        assert(tab_order()(ordered[i], ordered[j]));
        lemma_lex_le_reflexive(ordered[i].name);
    }
}

/// When exactly one of the reported tabs is active, the canonical order puts
/// that tab last and every other tab, inactive, before it in ascending order
/// of name.
pub proof fn lemma_single_active_tab_is_last(
    given: Seq<TabInfoView>,
    ordered: Seq<TabInfoView>,
    k: int,
)
    requires
        is_canonical_order(given, ordered),
        0 <= k < given.len(),
        given[k].active,
        forall|j: int| 0 <= j < given.len() && j != k ==> !(#[trigger] given[j]).active,
    ensures
        ordered.len() == given.len(),
        ordered.last() == given[k],
        forall|i: int| 0 <= i < ordered.len() - 1 ==> !(#[trigger] ordered[i]).active,
        forall|i: int, j: int|
            0 <= i < j < ordered.len() - 1 ==> lex_le(
                (#[trigger] ordered[i]).name,
                (#[trigger] ordered[j]).name,
            ),
{
    lemma_canonical_order_shape(given, ordered);
    given.to_multiset_ensures();
    ordered.to_multiset_ensures();
    let v = given[k];
    // every active tab of the ordered list is the one active tab that was reported
    assert forall|i: int| 0 <= i < ordered.len() && (#[trigger] ordered[i]).active implies ordered[i]
        == v by {
        assert(ordered.contains(ordered[i]));
        assert(given.to_multiset().count(ordered[i]) > 0);
        assert(given.contains(ordered[i]));
        let j = choose|j: int| 0 <= j < given.len() && given[j] == ordered[i];
        assert(j == k);
    }
    // and it is there
    assert(given.contains(v));
    assert(ordered.to_multiset().count(v) > 0);
    assert(ordered.contains(v));
    let at = choose|i: int| 0 <= i < ordered.len() && ordered[i] == v;
    let last = ordered.len() - 1;
    assert(ordered[last].active) by {
        if at < last {
            assert(ordered[at].active);
        }
    }
    // it occurs once only, so nothing before the last tab is active
    assert forall|i: int| 0 <= i < last implies !(#[trigger] ordered[i]).active by {
        if ordered[i].active {
            let fewer_given = given.remove(k);
            let fewer_ordered = ordered.remove(i);
            fewer_given.to_multiset_ensures();
            fewer_ordered.to_multiset_ensures();
            assert(fewer_ordered[last - 1] == v);
            assert(fewer_ordered.contains(v));
            assert(fewer_ordered.to_multiset().count(v) > 0);
            assert(fewer_given.to_multiset() =~= fewer_ordered.to_multiset());
            assert(fewer_given.to_multiset().count(v) > 0);
            assert(fewer_given.contains(v));
            let j = choose|j: int| 0 <= j < fewer_given.len() && fewer_given[j] == v;
            let j0 = if j < k { j } else { j + 1 };
            assert(given[j0] == v);
            assert(false);
        }
    }
}

} // verus!
