use vstd::prelude::*;

use crate::models::UserRecord;

verus! {

/// The records of `dir` whose email is `email`, in the order of `dir`.
pub open spec fn records_for(dir: Seq<UserRecord>, email: Seq<char>) -> Seq<UserRecord>
    decreases dir.len(),
{
    if dir.len() == 0 {
        Seq::empty()
    } else {
        let rest = records_for(dir.drop_last(), email);
        if dir.last().email@ == email {
            rest.push(dir.last())
        } else {
            rest
        }
    }
}

/// The record that stands for `email`: there is one exactly when a single record
/// carries that email. Two records with one email are ambiguous, and none of
/// them is picked.
pub open spec fn lookup(dir: Seq<UserRecord>, email: Seq<char>) -> Option<UserRecord> {
    if records_for(dir, email).len() == 1 {
        Some(records_for(dir, email)[0])
    } else {
        None
    }
}

/// Finds the position of the one record whose email is `email`.
pub fn find_by_email(records: &Vec<UserRecord>, email: &String) -> (r: Option<usize>)
    ensures
        match r {
            Some(i) => i < records@.len() && lookup(records@, email@) == Some(records@[i as int]),
            None => lookup(records@, email@) is None,
        },
{
    let mut found: Option<usize> = None;
    let mut count: usize = 0;
    let mut i: usize = 0;
    while i < records.len()
        invariant
            i <= records@.len(),
            count as int == records_for(records@.take(i as int), email@).len(),
            count <= i,
            count == 0 <==> found is None,
            match found {
                Some(j) => j < i && records_for(records@.take(i as int), email@)[0]
                    == records@[j as int],
                None => true,
            },
        decreases records@.len() - i,
    {
        let ghost pre = records@.take(i as int);
        assert(records@.take(i + 1).drop_last() =~= pre);
        proof {
            lemma_records_for_prefix(pre, records@[i as int], email@);
        }
        if records[i].email == *email {
            if found.is_none() {
                found = Some(i);
            }
            count = count + 1;
        }
        i = i + 1;
    }
    assert(records@.take(records@.len() as int) =~= records@);
    if count == 1 {
        found
    } else {
        None
    }
}

/// Every record that `records_for` yields is a record of `dir` that carries the email.
pub proof fn lemma_records_for_sound(dir: Seq<UserRecord>, email: Seq<char>)
    ensures
        forall|k: int|
            0 <= k < records_for(dir, email).len() ==> (#[trigger] records_for(dir, email)[k]).email@
                == email && dir.contains(records_for(dir, email)[k]),
    decreases dir.len(),
{
    if dir.len() > 0 {
        let rest = dir.drop_last();
        lemma_records_for_sound(rest, email);
        assert forall|k: int| 0 <= k < records_for(dir, email).len() implies (#[trigger] records_for(
            dir,
            email,
        )[k]).email@ == email && dir.contains(records_for(dir, email)[k]) by {
            if k < records_for(rest, email).len() {
                let x = records_for(rest, email)[k];
                let j = choose|j: int| 0 <= j < rest.len() && rest[j] == x;
                assert(dir[j] == x);
            } else {
                assert(dir[dir.len() - 1] == dir.last());
            }
        }
    }
}

/// A record of `dir` that carries the email is among the records for it.
pub proof fn lemma_records_for_complete(dir: Seq<UserRecord>, email: Seq<char>, i: int)
    requires
        0 <= i < dir.len(),
        dir[i].email@ == email,
    ensures
        records_for(dir, email).contains(dir[i]),
    decreases dir.len(),
{
    let rest = dir.drop_last();
    if i < dir.len() - 1 {
        lemma_records_for_complete(rest, email, i);
        let k = choose|k: int|
            0 <= k < records_for(rest, email).len() && records_for(rest, email)[k] == rest[i];
        if dir.last().email@ == email {
            assert(records_for(dir, email)[k] == dir[i]);
        }
    } else {
        let rf = records_for(dir, email);
        assert(rf[rf.len() - 1] == dir[i]);
    }
}

proof fn lemma_records_for_prefix(pre: Seq<UserRecord>, u: UserRecord, email: Seq<char>)
    ensures
        records_for(pre.push(u), email) == if u.email@ == email {
            records_for(pre, email).push(u)
        } else {
            records_for(pre, email)
        },
{
    assert(pre.push(u).drop_last() =~= pre);
}

} // verus!
