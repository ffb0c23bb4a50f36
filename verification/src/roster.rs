use vstd::prelude::*;

verus! {

/// One member as a roster listing shows it: who it is and which roles it
/// holds. It lives only until the page has been searched.
#[derive(Clone, Debug)]
pub struct MemberSnapshot {
    pub user_id: u64,
    pub held_role_ids: Vec<u64>,
}

/// Whether the member holds `role`.
pub open spec fn holds(member: MemberSnapshot, role: u64) -> bool {
    member.held_role_ids@.contains(role)
}

/// The identifiers of the members that hold `role`, in the order of the
/// listing.
pub open spec fn holders(members: Seq<MemberSnapshot>, role: u64) -> Seq<u64>
    decreases members.len(),
{
    if members.len() == 0 {
        Seq::empty()
    } else if holds(members.last(), role) {
        holders(members.drop_last(), role).push(members.last().user_id)
    } else {
        holders(members.drop_last(), role)
    }
}

/// Searching two listings one after the other finds what searching them as
/// one listing finds.
pub proof fn lemma_holders_concat(a: Seq<MemberSnapshot>, b: Seq<MemberSnapshot>, role: u64)
    ensures
        holders(a + b, role) == holders(a, role) + holders(b, role),
    decreases b.len(),
{
    if b.len() == 0 {
        assert(a + b =~= a);
        assert(holders(a, role) + holders(b, role) =~= holders(a, role));
    } else {
        lemma_holders_concat(a, b.drop_last(), role);
        assert((a + b).drop_last() =~= a + b.drop_last());
        assert((a + b).last() == b.last());
        if holds(b.last(), role) {
            assert(holders(a, role) + holders(b.drop_last(), role).push(b.last().user_id)
                =~= (holders(a, role) + holders(b.drop_last(), role)).push(b.last().user_id));
        }
    }
}

/// No listing holds more holders than members.
pub proof fn lemma_holders_len(members: Seq<MemberSnapshot>, role: u64)
    ensures
        holders(members, role).len() <= members.len(),
    decreases members.len(),
{
    if members.len() > 0 {
        lemma_holders_len(members.drop_last(), role);
    }
}

/// Whether `role` is among `roles`.
pub fn holds_role(roles: &Vec<u64>, role: u64) -> (r: bool)
    ensures
        r == roles@.contains(role),
{
    let mut i: usize = 0;
    while i < roles.len()
        invariant
            i <= roles@.len(),
            forall|j: int| 0 <= j < i ==> roles@[j] != role,
        decreases roles@.len() - i,
    {
        if roles[i] == role {
            return true;
        }
        i = i + 1;
    }
    false
}

/// Whether `member` holds `role`.
pub fn has_role(member: &MemberSnapshot, role: u64) -> (r: bool)
    ensures
        r == holds(*member, role),
{
    holds_role(&member.held_role_ids, role)
}

/// Adds to `found` the identifier of every member of `page` that holds
/// `role`, in the order of the page.
pub fn collect_holders(page: &Vec<MemberSnapshot>, role: u64, found: &mut Vec<u64>)
    ensures
        final(found)@ == old(found)@ + holders(page@, role),
{
    let mut i: usize = 0;
    assert(page@.take(0) =~= Seq::empty());
    assert(found@ =~= old(found)@ + holders(page@.take(0), role));
    while i < page.len()
        invariant
            i <= page@.len(),
            found@ == old(found)@ + holders(page@.take(i as int), role),
        decreases page@.len() - i,
    {
        let ghost before = page@.take(i as int);
        let ghost after = page@.take(i + 1);
        assert(after.drop_last() =~= before);
        assert(after.last() == page@[i as int]);
        if has_role(&page[i], role) {
            found.push(page[i].user_id);
            assert(found@ =~= old(found)@ + holders(after, role));
        }
        i = i + 1;
    }
    assert(page@.take(page@.len() as int) =~= page@);
}

} // verus!
