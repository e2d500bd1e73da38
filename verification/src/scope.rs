//! Which accounts a key may see: the members of its enabled routing groups
//! and of the groups granted to it, kept sorted and free of duplicates,
//! looked up by binary search and paged.

use vstd::prelude::*;
use crate::text::{text_lt, text_less, same_text, lemma_text_lt_transitive, lemma_text_lt_total, lemma_text_lt_irreflexive};
use crate::keys::{AdminError, AdminErrorKind, ClientKeyGroup, ClientKeyRecord, resource_not_found, not_found_message};
use crate::model::{KeyUsageAccountScopeState, KeyUsageAccountListQuery, KeyUsageAccountDetailQuery, KeyUsageAccountList, KeyUsageAccountSnapshot};

verus! {

/// One membership of an account in an account group.
#[derive(Debug, Clone)]
pub struct AccountGroupMember {
    pub group_id: String,
    pub account_id: String,
}

/// The character sequences of a sequence of strings.
pub open spec fn texts(v: Seq<String>) -> Seq<Seq<char>> {
    v.map_values(|s: String| s@)
}

/// Every element is strictly before every later one: sorted, no duplicates.
pub open spec fn strictly_sorted(s: Seq<Seq<char>>) -> bool {
    forall|i: int, j: int| 0 <= i < j < s.len() ==> text_lt(#[trigger] s[i], #[trigger] s[j])
}

/// The account ids that the memberships name.
pub open spec fn member_ids(members: Seq<AccountGroupMember>) -> Set<Seq<char>> {
    Set::new(|t: Seq<char>| exists|k: int| 0 <= k < members.len() && #[trigger] members[k].account_id@ == t)
}

/// First position whose id is not before `x`.
fn lower_bound(ids: &Vec<String>, x: &str) -> (p: usize)
    requires
        strictly_sorted(texts(ids@)),
    ensures
        p <= ids.len(),
        forall|i: int| 0 <= i < p ==> text_lt(#[trigger] ids@[i]@, x@),
        forall|i: int| p <= i < ids.len() ==> !text_lt(#[trigger] ids@[i]@, x@),
{
    let mut lo: usize = 0;
    let mut hi: usize = ids.len();
    while lo < hi
        invariant
            lo <= hi <= ids.len(),
            strictly_sorted(texts(ids@)),
            forall|i: int| 0 <= i < lo ==> text_lt(#[trigger] ids@[i]@, x@),
            forall|i: int| hi <= i < ids.len() ==> !text_lt(#[trigger] ids@[i]@, x@),
        decreases hi - lo,
    {
        let mid = lo + (hi - lo) / 2;
        if text_less(ids[mid].as_str(), x) {
            proof {
                assert forall|i: int| 0 <= i < mid + 1 implies text_lt(#[trigger] ids@[i]@, x@) by {
                    if i < mid {
                        assert(text_lt(texts(ids@)[i], texts(ids@)[mid as int]));
                        lemma_text_lt_transitive(ids@[i]@, ids@[mid as int]@, x@);
                    }
                }
            }
            lo = mid + 1;
        } else {
            proof {
                assert forall|i: int| mid <= i < ids.len() implies !text_lt(#[trigger] ids@[i]@, x@) by {
                    if i > mid {
                        assert(text_lt(texts(ids@)[mid as int], texts(ids@)[i]));
                        if text_lt(ids@[i]@, x@) {
                            lemma_text_lt_transitive(ids@[mid as int]@, ids@[i]@, x@);
                        }
                    }
                }
            }
            hi = mid;
        }
    }
    lo
}

/// Whether `x` is one of the sorted `ids` (binary search).
pub fn contains_account(ids: &Vec<String>, x: &str) -> (found: bool)
    requires
        strictly_sorted(texts(ids@)),
    ensures
        found == texts(ids@).contains(x@),
{
    let p = lower_bound(ids, x);
    let found = p < ids.len() && same_text(ids[p].as_str(), x);
    proof {
        if texts(ids@).contains(x@) {
            let k = choose|k: int| 0 <= k < texts(ids@).len() && texts(ids@)[k] == x@;
            assert(ids@[k]@ == x@);
            lemma_text_lt_irreflexive(x@);
            assert(k >= p);
            if k > p {
                assert(text_lt(texts(ids@)[p as int], texts(ids@)[k]));
                assert(text_lt(ids@[p as int]@, x@));
            }
        }
        if found {
            assert(texts(ids@)[p as int] == x@);
        }
    }
    found
}

/// The account ids of the memberships, sorted in `String` order and without
/// duplicates.
pub fn collect_account_ids(members: Vec<AccountGroupMember>) -> (ids: Vec<String>)
    ensures
        strictly_sorted(texts(ids@)),
        texts(ids@).to_set() == member_ids(members@),
{
    let mut ids: Vec<String> = Vec::new();
    let mut k: usize = 0;
    while k < members.len()
        invariant
            k <= members.len(),
            strictly_sorted(texts(ids@)),
            forall|t: Seq<char>| texts(ids@).contains(t) <==> (exists|j: int| 0 <= j < k && #[trigger] members@[j].account_id@ == t),
        decreases members.len() - k,
    {
        let x = members[k].account_id.clone();
        let p = lower_bound(&ids, x.as_str());
        let ghost old_ids = ids@;
        if p < ids.len() && same_text(ids[p].as_str(), x.as_str()) {
            proof {
                assert forall|t: Seq<char>| texts(ids@).contains(t) <==> (exists|j: int| 0 <= j < k + 1 && #[trigger] members@[j].account_id@ == t) by {
                    if t == x@ {
                        assert(texts(ids@)[p as int] == t);
                        assert(members@[k as int].account_id@ == t);
                    }
                    if exists|j: int| 0 <= j < k + 1 && #[trigger] members@[j].account_id@ == t {
                        let j = choose|j: int| 0 <= j < k + 1 && #[trigger] members@[j].account_id@ == t;
                        if j < k {
                            assert(exists|j: int| 0 <= j < k && #[trigger] members@[j].account_id@ == t);
                        } else {
                            assert(texts(ids@)[p as int] == t);
                        }
                    }
                }
            }
        } else {
            ids.insert(p, x);
            proof {
                assert(ids@[p as int]@ == members@[k as int].account_id@);
                assert forall|i: int, j: int| 0 <= i < j < ids@.len() implies text_lt(#[trigger] texts(ids@)[i], #[trigger] texts(ids@)[j]) by {
                    let xi = texts(ids@)[i];
                    let xj = texts(ids@)[j];
                    if j < p {
                        assert(xi == texts(old_ids)[i] && xj == texts(old_ids)[j]);
                    } else if j == p {
                        assert(xi == old_ids[i]@);
                    } else if i == p {
                        // x is not before old_ids[j - 1] and differs from it
                        assert(xj == old_ids[j - 1]@);
                        assert(!text_lt(old_ids[j - 1]@, x@));
                        lemma_text_lt_total(old_ids[j - 1]@, x@);
                        if old_ids[j - 1]@ == x@ {
                            if j - 1 == p {
                                assert(false);
                            } else {
                                assert(text_lt(texts(old_ids)[p as int], texts(old_ids)[j - 1]));
                                assert(!text_lt(old_ids[p as int]@, x@));
                                lemma_text_lt_total(old_ids[p as int]@, x@);
                                assert(old_ids[p as int]@ == x@);
                            }
                        }
                    } else if i < p {
                        assert(xi == old_ids[i]@);
                        assert(xj == old_ids[j - 1]@);
                        assert(text_lt(texts(old_ids)[i], texts(old_ids)[j - 1]));
                    } else {
                        assert(xi == old_ids[i - 1]@);
                        assert(xj == old_ids[j - 1]@);
                        assert(text_lt(texts(old_ids)[i - 1], texts(old_ids)[j - 1]));
                    }
                }
                assert forall|t: Seq<char>| texts(ids@).contains(t) <==> (exists|j: int| 0 <= j < k + 1 && #[trigger] members@[j].account_id@ == t) by {
                    if texts(ids@).contains(t) {
                        let q = choose|q: int| 0 <= q < texts(ids@).len() && texts(ids@)[q] == t;
                        if q < p {
                            assert(texts(old_ids)[q] == t);
                        } else if q > p {
                            assert(texts(old_ids)[q - 1] == t);
                        }
                        if q != p {
                            assert(texts(old_ids).contains(t));
                            let j = choose|j: int| 0 <= j < k && #[trigger] members@[j].account_id@ == t;
                            assert(0 <= j < k + 1 && members@[j].account_id@ == t);
                        } else {
                            assert(members@[k as int].account_id@ == t);
                        }
                    }
                    if exists|j: int| 0 <= j < k + 1 && #[trigger] members@[j].account_id@ == t {
                        let j = choose|j: int| 0 <= j < k + 1 && #[trigger] members@[j].account_id@ == t;
                        if j < k {
                            assert(exists|j: int| 0 <= j < k && #[trigger] members@[j].account_id@ == t);
                            assert(texts(old_ids).contains(t));
                            let q = choose|q: int| 0 <= q < texts(old_ids).len() && texts(old_ids)[q] == t;
                            if q < p {
                                assert(texts(ids@)[q] == t);
                            } else {
                                assert(texts(ids@)[q + 1] == t);
                            }
                        } else {
                            assert(texts(ids@)[p as int] == t);
                        }
                    }
                }
            }
        }
        k = k + 1;
    }
    assert(texts(ids@).to_set() =~= member_ids(members@));
    ids
}

/// The accounts a key may see: how its scope stands, the account ids of its
/// enabled routing groups and of the groups granted to it, sorted and without
/// duplicates, and, among them, the accounts of its granted groups.
pub struct AccountScope {
    state: KeyUsageAccountScopeState,
    ids: Vec<String>,
    granted: Vec<String>,
}

impl AccountScope {
    #[verifier::type_invariant]
    spec fn well_formed(self) -> bool {
        &&& strictly_sorted(texts(self.ids@))
        &&& strictly_sorted(texts(self.granted@))
        &&& self.state != KeyUsageAccountScopeState::Available ==> self.ids@.len() == 0 && self.granted@.len() == 0
    }

    /// How the scope stands.
    pub closed spec fn spec_state(self) -> KeyUsageAccountScopeState {
        self.state
    }

    /// The account ids in the scope, in order.
    pub closed spec fn spec_ids(self) -> Seq<Seq<char>> {
        texts(self.ids@)
    }

    /// The account ids of the groups granted to the key, in order.
    pub closed spec fn spec_granted(self) -> Seq<Seq<char>> {
        texts(self.granted@)
    }

    /// How the scope stands.
    pub fn state(&self) -> (s: KeyUsageAccountScopeState)
        ensures
            s == self.spec_state(),
            s != KeyUsageAccountScopeState::Available ==> self.spec_ids().len() == 0 && self.spec_granted().len() == 0,
    {
        proof {
            use_type_invariant(self);
        }
        self.state
    }

    /// The account ids in the scope, in order.
    pub fn ids(&self) -> (ids: &Vec<String>)
        ensures
            texts(ids@) == self.spec_ids(),
            strictly_sorted(texts(ids@)),
    {
        proof {
            use_type_invariant(self);
        }
        &self.ids
    }

    /// Whether the key holds an explicit grant on the account `account_id`:
    /// the account is a member of a group granted to the key.
    pub fn is_granted(&self, account_id: &str) -> (r: bool)
        ensures
            r == self.spec_granted().contains(account_id@),
    {
        proof {
            use_type_invariant(self);
        }
        contains_account(&self.granted, account_id)
    }
}

/// The ids of the enabled groups, in order.
pub open spec fn enabled_group_ids(groups: Seq<ClientKeyGroup>) -> Seq<Seq<char>>
    decreases groups.len(),
{
    if groups.len() == 0 {
        Seq::empty()
    } else {
        enabled_group_ids(groups.drop_last()) + if groups.last().enabled {
            seq![groups.last().id@]
        } else {
            Seq::empty()
        }
    }
}

/// The enabled group ids are exactly the ids of the enabled groups: each one
/// is the id of an enabled group, each enabled group's id is among them, and
/// there are no more of them than groups.
pub proof fn lemma_enabled_group_ids_are_the_enabled_groups(groups: Seq<ClientKeyGroup>)
    ensures
        enabled_group_ids(groups).len() <= groups.len(),
        forall|t: Seq<char>| enabled_group_ids(groups).contains(t)
            <==> exists|k: int| 0 <= k < groups.len() && #[trigger] groups[k].id@ == t && groups[k].enabled,
    decreases groups.len(),
{
    if groups.len() > 0 {
        let init = groups.drop_last();
        lemma_enabled_group_ids_are_the_enabled_groups(init);
        let tail: Seq<Seq<char>> = if groups.last().enabled { seq![groups.last().id@] } else { Seq::empty() };
        assert(enabled_group_ids(groups) == enabled_group_ids(init) + tail);
        assert forall|t: Seq<char>| enabled_group_ids(groups).contains(t)
            <==> exists|k: int| 0 <= k < groups.len() && #[trigger] groups[k].id@ == t && groups[k].enabled by {
            let all = enabled_group_ids(groups);
            let a = enabled_group_ids(init);
            if all.contains(t) {
                let p = choose|p: int| 0 <= p < all.len() && all[p] == t;
                if p < a.len() {
                    assert(a[p] == all[p]);
                    assert(a.contains(t));
                    let k = choose|k: int| 0 <= k < init.len() && #[trigger] init[k].id@ == t && init[k].enabled;
                    assert(groups[k] == init[k]);
                } else {
                    assert(tail[p - a.len()] == t);
                    assert(groups[groups.len() - 1].id@ == t);
                }
            }
            if exists|k: int| 0 <= k < groups.len() && #[trigger] groups[k].id@ == t && groups[k].enabled {
                let k = choose|k: int| 0 <= k < groups.len() && #[trigger] groups[k].id@ == t && groups[k].enabled;
                if k < init.len() {
                    assert(init[k] == groups[k]);
                    assert(exists|k: int| 0 <= k < init.len() && #[trigger] init[k].id@ == t && init[k].enabled);
                    assert(a.contains(t));
                    let p = choose|p: int| 0 <= p < a.len() && a[p] == t;
                    assert(all[p] == a[p]);
                    assert(all.contains(t));
                } else {
                    assert(all[a.len() as int] == t);
                    assert(all.contains(t));
                }
            }
        }
    }
}

/// What a key's scope needs: nothing more when it is settled by the key's
/// groups and grants alone, or the members of the listed groups.
pub enum ScopePlan {
    Settled(AccountScope),
    LoadMembers(Vec<String>),
}

/// The scope of `key`, which has been granted the groups `granted`: unbound
/// with neither routing groups nor grants, without enabled groups when all
/// routing groups are disabled and nothing is granted, and otherwise the
/// members of its enabled routing groups and of its granted groups.
pub fn account_scope(key: &ClientKeyRecord, granted: &Vec<String>) -> (plan: ScopePlan)
    ensures
        key.groups.len() == 0 && granted.len() == 0 ==> (plan matches ScopePlan::Settled(s) && s.spec_state() == KeyUsageAccountScopeState::Unbound && s.spec_ids().len() == 0),
        key.groups.len() > 0 && enabled_group_ids(key.groups@).len() == 0 && granted.len() == 0 ==> (plan matches ScopePlan::Settled(s) && s.spec_state() == KeyUsageAccountScopeState::NoEnabledGroups && s.spec_ids().len() == 0),
        enabled_group_ids(key.groups@).len() > 0 || granted.len() > 0 ==> (plan matches ScopePlan::LoadMembers(ids) && texts(ids@) == enabled_group_ids(key.groups@) + texts(granted@)),
{
    let mut group_ids: Vec<String> = Vec::new();
    assert(key.groups@.take(0) =~= Seq::<ClientKeyGroup>::empty());
    for i in 0..key.groups.len()
        invariant
            texts(group_ids@) == enabled_group_ids(key.groups@.take(i as int)),
    {
        assert(key.groups@.take(i + 1).drop_last() =~= key.groups@.take(i as int));
        let ghost before = group_ids@;
        if key.groups[i].enabled {
            group_ids.push(key.groups[i].id.clone());
            assert(texts(group_ids@) =~= texts(before).push(key.groups@[i as int].id@));
        }
        assert(texts(group_ids@) =~= enabled_group_ids(key.groups@.take(i + 1)));
    }
    assert(key.groups@.take(key.groups.len() as int) =~= key.groups@);
    if group_ids.len() == 0 && granted.len() == 0 {
        let state = if key.groups.len() == 0 {
            KeyUsageAccountScopeState::Unbound
        } else {
            KeyUsageAccountScopeState::NoEnabledGroups
        };
        return ScopePlan::Settled(AccountScope { state, ids: Vec::new(), granted: Vec::new() });
    }
    let ghost enabled = texts(group_ids@);
    for i in 0..granted.len()
        invariant
            texts(group_ids@) == enabled + texts(granted@.take(i as int)),
    {
        let ghost before = group_ids@;
        group_ids.push(granted[i].clone());
        assert(texts(group_ids@) =~= texts(before).push(granted@[i as int]@));
        assert(texts(granted@.take(i + 1)) =~= texts(granted@.take(i as int)).push(granted@[i as int]@));
    }
    assert(granted@.take(granted.len() as int) =~= granted@);
    ScopePlan::LoadMembers(group_ids)
}

/// Whether `x` is one of `v`.
fn has_text(v: &Vec<String>, x: &str) -> (r: bool)
    ensures
        r == texts(v@).contains(x@),
{
    let mut i: usize = 0;
    while i < v.len()
        invariant
            i <= v.len(),
            forall|k: int| 0 <= k < i ==> v@[k]@ != x@,
        decreases v.len() - i,
    {
        if same_text(v[i].as_str(), x) {
            assert(texts(v@)[i as int] == x@);
            return true;
        }
        i = i + 1;
    }
    proof {
        if texts(v@).contains(x@) {
            let k = choose|k: int| 0 <= k < texts(v@).len() && texts(v@)[k] == x@;
            assert(v@[k]@ == x@);
        }
    }
    false
}

/// The account ids that memberships of the groups `groups` name.
pub open spec fn granted_member_ids(members: Seq<AccountGroupMember>, groups: Seq<Seq<char>>) -> Set<Seq<char>> {
    Set::new(|t: Seq<char>| exists|k: int| 0 <= k < members.len() && #[trigger] members[k].account_id@ == t && groups.contains(members[k].group_id@))
}

proof fn lemma_member_ids_push(s: Seq<AccountGroupMember>, m: AccountGroupMember)
    ensures
        member_ids(s.push(m)) == member_ids(s).insert(m.account_id@),
{
    assert forall|t: Seq<char>| member_ids(s.push(m)).contains(t) <==> member_ids(s).insert(m.account_id@).contains(t) by {
        if member_ids(s.push(m)).contains(t) {
            let k = choose|k: int| 0 <= k < s.push(m).len() && #[trigger] s.push(m)[k].account_id@ == t;
            if k < s.len() {
                assert(s[k] == s.push(m)[k]);
            }
        }
        if member_ids(s).contains(t) {
            let k = choose|k: int| 0 <= k < s.len() && #[trigger] s[k].account_id@ == t;
            assert(s.push(m)[k] == s[k]);
        }
        if t == m.account_id@ {
            assert(s.push(m)[s.len() as int] == m);
        }
    }
    assert(member_ids(s.push(m)) =~= member_ids(s).insert(m.account_id@));
}

proof fn lemma_granted_step(members: Seq<AccountGroupMember>, groups: Seq<Seq<char>>, i: int)
    requires
        0 <= i < members.len(),
    ensures
        granted_member_ids(members.take(i + 1), groups) == (if groups.contains(members[i].group_id@) {
            granted_member_ids(members.take(i), groups).insert(members[i].account_id@)
        } else {
            granted_member_ids(members.take(i), groups)
        }),
{
    let a = members.take(i + 1);
    let b = members.take(i);
    let rhs = if groups.contains(members[i].group_id@) {
        granted_member_ids(b, groups).insert(members[i].account_id@)
    } else {
        granted_member_ids(b, groups)
    };
    assert forall|t: Seq<char>| granted_member_ids(a, groups).contains(t) <==> rhs.contains(t) by {
        if granted_member_ids(a, groups).contains(t) {
            let k = choose|k: int| 0 <= k < a.len() && #[trigger] a[k].account_id@ == t && groups.contains(a[k].group_id@);
            if k < i {
                assert(b[k] == a[k]);
            }
        }
        if granted_member_ids(b, groups).contains(t) {
            let k = choose|k: int| 0 <= k < b.len() && #[trigger] b[k].account_id@ == t && groups.contains(b[k].group_id@);
            assert(a[k] == b[k]);
        }
        if groups.contains(members[i].group_id@) && t == members[i].account_id@ {
            assert(a[i] == members[i]);
        }
    }
    assert(granted_member_ids(a, groups) =~= rhs);
}

/// The memberships of the groups `groups`.
fn memberships_of(members: &Vec<AccountGroupMember>, groups: &Vec<String>) -> (out: Vec<AccountGroupMember>)
    ensures
        member_ids(out@) == granted_member_ids(members@, texts(groups@)),
{
    let mut out: Vec<AccountGroupMember> = Vec::new();
    let mut i: usize = 0;
    assert(member_ids(out@) =~= granted_member_ids(members@.take(0), texts(groups@)));
    while i < members.len()
        invariant
            i <= members.len(),
            member_ids(out@) == granted_member_ids(members@.take(i as int), texts(groups@)),
        decreases members.len() - i,
    {
        let m = &members[i];
        proof {
            lemma_granted_step(members@, texts(groups@), i as int);
        }
        if has_text(groups, m.group_id.as_str()) {
            let x = AccountGroupMember { group_id: m.group_id.clone(), account_id: m.account_id.clone() };
            proof {
                lemma_member_ids_push(out@, x);
            }
            out.push(x);
        }
        i = i + 1;
    }
    assert(members@.take(members.len() as int) =~= members@);
    out
}

/// An available scope holding the accounts that the memberships name, where
/// the members of the groups `granted` are the accounts the key holds a
/// grant on.
pub fn scope_from_members(members: Vec<AccountGroupMember>, granted: &Vec<String>) -> (scope: AccountScope)
    ensures
        scope.spec_state() == KeyUsageAccountScopeState::Available,
        scope.spec_ids().to_set() == member_ids(members@),
        scope.spec_granted().to_set() == granted_member_ids(members@, texts(granted@)),
{
    let of_grants = memberships_of(&members, granted);
    let granted_ids = collect_account_ids(of_grants);
    let ids = collect_account_ids(members);
    AccountScope { state: KeyUsageAccountScopeState::Available, ids, granted: granted_ids }
}

/// An account's detail is readable exactly when the account is a member of
/// one of the key's enabled routing groups or granted groups: the scope built
/// from the memberships of those groups holds an id exactly when some
/// membership names it.
pub proof fn lemma_detail_exactly_in_scope(ids: Seq<Seq<char>>, members: Seq<AccountGroupMember>, account_id: Seq<char>)
    requires
        ids.to_set() == member_ids(members),
    ensures
        ids.contains(account_id) <==> exists|k: int| 0 <= k < members.len() && #[trigger] members[k].account_id@ == account_id,
{
    assert(ids.contains(account_id) <==> ids.to_set().contains(account_id));
}

/// The first item of page `page` (counted from 1; page 0 reads as page 1)
/// of `page_size` items, saturated at `usize::MAX`.
pub open spec fn page_start(page: int, page_size: int) -> int {
    let before = if page >= 1 { page - 1 } else { 0 };
    if before * page_size > usize::MAX { usize::MAX as int } else { before * page_size }
}

/// One past the last item of that page in a list of `len` items.
pub open spec fn page_end(len: int, page: int, page_size: int) -> int {
    let start = page_start(page, page_size);
    let stop = if start + page_size > usize::MAX { usize::MAX as int } else { start + page_size };
    if stop < len { stop } else { len }
}

/// The items of page `page` of `s`; a page past the end is empty.
pub open spec fn page_of<A>(s: Seq<A>, page: int, page_size: int) -> Seq<A> {
    let start = page_start(page, page_size);
    if start <= s.len() {
        s.subrange(start, page_end(s.len() as int, page, page_size))
    } else {
        Seq::empty()
    }
}

/// One page of a key's accounts, before the accounts themselves are loaded.
pub struct AccountPagePlan {
    pub scope_state: KeyUsageAccountScopeState,
    pub page_ids: Vec<String>,
    pub current_page: u32,
    pub page_size: u16,
    pub total: u64,
}

/// The ids on the requested page of the scope, and the count of all of them.
pub fn account_page(scope: &AccountScope, query: KeyUsageAccountListQuery) -> (plan: AccountPagePlan)
    ensures
        plan.scope_state == scope.spec_state(),
        texts(plan.page_ids@) == page_of(scope.spec_ids(), query.current_page as int, query.page_size.spec_get() as int),
        plan.total == scope.spec_ids().len(),
        plan.current_page == query.current_page,
        plan.page_size == query.page_size.spec_get(),
{
    let ids = scope.ids();
    let size: u16 = query.page_size.get();
    let total: u64 = ids.len() as u64;
    let before: u32 = if query.current_page >= 1 { query.current_page - 1 } else { 0 };
    assert((before as u64) * (size as u64) <= 0xffff_ffff * 0xffff) by (nonlinear_arith)
        requires
            before <= 0xffff_ffff,
            size <= 0xffff,
    ;
    let product: u64 = (before as u64) * (size as u64);
    let start: usize = if product > usize::MAX as u64 { usize::MAX } else { product as usize };
    let stop: usize = if start > usize::MAX - (size as usize) { usize::MAX } else { start + size as usize };
    let end: usize = if stop < ids.len() { stop } else { ids.len() };
    let mut page_ids: Vec<String> = Vec::new();
    if start <= ids.len() {
        let mut i = start;
        while i < end
            invariant
                start <= i <= end <= ids.len(),
                texts(page_ids@) == texts(ids@).subrange(start as int, i as int),
            decreases end - i,
        {
            let ghost before_ids = page_ids@;
            page_ids.push(ids[i].clone());
            assert(texts(page_ids@) =~= texts(before_ids).push(ids@[i as int]@));
            assert(texts(ids@).subrange(start as int, i + 1) =~= texts(ids@).subrange(start as int, i as int).push(ids@[i as int]@));
            i = i + 1;
        }
    }
    proof {
        assert(start as int == page_start(query.current_page as int, size as int)) by (nonlinear_arith)
            requires
                product as int == (before as int) * (size as int),
                start as int == (if product > usize::MAX { usize::MAX as int } else { product as int }),
                before as int == (if query.current_page >= 1 { query.current_page - 1 } else { 0 }),
        ;
        if start > ids.len() {
            assert(texts(page_ids@) =~= Seq::<Seq<char>>::empty());
        }
    }
    AccountPagePlan {
        scope_state: scope.state(),
        page_ids,
        current_page: query.current_page,
        page_size: size,
        total,
    }
}

/// The page of accounts, with the snapshots loaded for its ids.
pub fn account_list(plan: AccountPagePlan, items: Vec<KeyUsageAccountSnapshot>) -> (list: KeyUsageAccountList)
    ensures
        list.scope_state == plan.scope_state,
        list.items@ == items@,
        list.current_page == plan.current_page,
        list.page_size == plan.page_size,
        list.total == plan.total,
{
    KeyUsageAccountList {
        scope_state: plan.scope_state,
        items,
        current_page: plan.current_page,
        page_size: plan.page_size,
        total: plan.total,
    }
}

/// The account a detail query may read: one in the key's scope, and no other.
pub fn detail_target(scope: &AccountScope, query: &KeyUsageAccountDetailQuery) -> (r: Result<(), AdminError>)
    ensures
        r is Ok <==> scope.spec_ids().contains(query.account_id@),
        r matches Err(e) ==> e.kind == AdminErrorKind::NotFound && e.message@ == not_found_message(),
{
    if contains_account(scope.ids(), query.account_id.as_str()) {
        Ok(())
    } else {
        Err(resource_not_found())
    }
}

/// The one snapshot loaded for a detail query; none loaded means not found.
pub fn first_snapshot(snapshots: Vec<KeyUsageAccountSnapshot>) -> (r: Result<KeyUsageAccountSnapshot, AdminError>)
    ensures
        snapshots.len() > 0 ==> r == Ok::<KeyUsageAccountSnapshot, AdminError>(snapshots@[0]),
        snapshots.len() == 0 ==> (r matches Err(e) && e.kind == AdminErrorKind::NotFound && e.message@ == not_found_message()),
{
    let mut snapshots = snapshots;
    if snapshots.len() == 0 {
        Err(resource_not_found())
    } else {
        Ok(snapshots.remove(0))
    }
}

/// Pages 1 through `k`, one after another.
pub open spec fn pages_through<A>(s: Seq<A>, k: nat, page_size: int) -> Seq<A>
    decreases k,
{
    if k == 0 {
        Seq::empty()
    } else {
        pages_through(s, (k - 1) as nat, page_size) + page_of(s, k as int, page_size)
    }
}

/// Paging neither skips nor repeats an item: pages 1 through `k`, one after
/// another, are exactly the first `k * page_size` items (all of them once
/// `k * page_size` reaches the length), in order.
pub proof fn lemma_paging_neither_skips_nor_repeats<A>(s: Seq<A>, k: nat, page_size: int)
    requires
        1 <= page_size,
        k * page_size <= usize::MAX,
    ensures
        pages_through(s, k, page_size) == s.take(if k * page_size < s.len() { k * page_size } else { s.len() as int }),
        k * page_size >= s.len() ==> pages_through(s, k, page_size) == s,
    decreases k,
{
    if k == 0 {
        assert(k * page_size == 0) by (nonlinear_arith)
            requires
                k == 0,
        ;
        assert(s.take(0) =~= Seq::<A>::empty());
    } else {
        let j = (k - 1) as nat;
        assert(j * page_size + page_size == k * page_size && j * page_size <= k * page_size) by (nonlinear_arith)
            requires
                j == k - 1,
                1 <= page_size,
                k >= 1,
        ;
        lemma_paging_neither_skips_nor_repeats(s, j, page_size);
        let start = j * page_size;
        assert(page_start(k as int, page_size) == start);
        let len = s.len() as int;
        assert(pages_through(s, k, page_size) == pages_through(s, j, page_size) + page_of(s, k as int, page_size));
        assert(page_end(len, k as int, page_size) == (if k * page_size < len { k * page_size } else { len }));
        if start <= len {
            assert(page_of(s, k as int, page_size) == s.subrange(start, page_end(len, k as int, page_size)));
            assert(s.take(start) + s.subrange(start, page_end(len, k as int, page_size)) =~= s.take(if k * page_size < len { k * page_size } else { len }));
        } else {
            assert(page_of(s, k as int, page_size) == Seq::<A>::empty());
            assert(s.take(len) =~= s.take(if k * page_size < len { k * page_size } else { len }));
            assert(s.take(len) + Seq::<A>::empty() =~= s.take(len));
        }
    }
    if k * page_size >= s.len() {
        assert(s.take(s.len() as int) =~= s);
    }
}

} // verus!
