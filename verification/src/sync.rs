//! Synchronisation between the wire-shaped front-end record and the shared
//! backend record. Every operation takes the per-field locks one at a time,
//! in the declared field order, and stops at the first poisoned lock.

use vstd::prelude::*;

use crate::types::{ApplicationError, FrontendStorage, FrontendView, Kampfgericht, Storage,
    StorageView, names_view, tables_view};

verus! {

/// What a full overwrite with an incoming record leaves behind: every scalar
/// is taken as sent; an absent collection clears the stored one. The prior
/// state does not survive anywhere in the result.
pub open spec fn merged_view(f: FrontendView) -> StorageView {
    StorageView {
        wk_name: f.wk_name,
        wk_date: f.wk_date,
        wk_place: f.wk_place,
        wk_responsible_person: f.wk_responsible_person,
        wk_judgesmeeting_time: f.wk_judgesmeeting_time,
        wk_replacement_judges: match f.wk_replacement_judges {
            Some(l) => l,
            None => Seq::empty(),
        },
        wk_judgingtables: match f.wk_judgingtables {
            Some(m) => m,
            None => Seq::empty(),
        },
    }
}

/// A partial record that omits its table mapping clears the stored mapping
/// on every merge: the prior tables never survive, whatever they were.
pub proof fn lemma_partial_record_overwrite(prior: StorageView, f: FrontendView)
    requires
        f.wk_judgingtables is None,
    ensures
        merged_view(f).wk_judgingtables == Seq::<(Seq<char>, crate::types::TableView)>::empty(),
        merged_view(f).wk_judgingtables != prior.wk_judgingtables || prior.wk_judgingtables
            =~= Seq::<(Seq<char>, crate::types::TableView)>::empty(),
{
    if merged_view(f).wk_judgingtables == prior.wk_judgingtables {
        assert(prior.wk_judgingtables =~= Seq::<(Seq<char>, crate::types::TableView)>::empty());
    }
}

/// Apply an incoming front-end record to the shared record: each field is
/// locked, overwritten and released in the declared order; the first
/// poisoned lock stops the walk and is reported, leaving later fields
/// untouched.
pub fn apply_incoming(frontend: FrontendStorage, storage: &mut Storage) -> (r: ApplicationError)
    ensures
        r == ApplicationError::NoError <==> old(storage).healthy(),
        r != ApplicationError::NoError ==> r == ApplicationError::MutexPoisonedError,
        old(storage).healthy() ==> final(storage).healthy() && final(storage)@ == merged_view(
            frontend@,
        ),
        final(storage).wk_judgingtables.is_poisoned() == old(
            storage,
        ).wk_judgingtables.is_poisoned(),
{
    let ghost f = frontend@;
    let FrontendStorage {
        wk_name,
        wk_date,
        wk_place,
        wk_responsible_person,
        wk_judgesmeeting_time,
        wk_replacement_judges,
        wk_judgingtables,
    } = frontend;
    if storage.wk_name.write(wk_name).is_err() {
        return ApplicationError::MutexPoisonedError;
    }
    if storage.wk_date.write(wk_date).is_err() {
        return ApplicationError::MutexPoisonedError;
    }
    if storage.wk_place.write(wk_place).is_err() {
        return ApplicationError::MutexPoisonedError;
    }
    if storage.wk_responsible_person.write(wk_responsible_person).is_err() {
        return ApplicationError::MutexPoisonedError;
    }
    if storage.wk_judgesmeeting_time.write(wk_judgesmeeting_time).is_err() {
        return ApplicationError::MutexPoisonedError;
    }
    let replacement = match wk_replacement_judges {
        Some(l) => l,
        None => Vec::new(),
    };
    if storage.wk_replacement_judges.write(replacement).is_err() {
        return ApplicationError::MutexPoisonedError;
    }
    let tables = match wk_judgingtables {
        Some(m) => m,
        None => Vec::new(),
    };
    if storage.wk_judgingtables.write(tables).is_err() {
        return ApplicationError::MutexPoisonedError;
    }
    proof {
        assert(names_view(Seq::<String>::empty()) =~= Seq::<Seq<char>>::empty());
        assert(tables_view(Seq::<(String, Kampfgericht)>::empty()) =~= Seq::<
            (Seq<char>, crate::types::TableView),
        >::empty());
        if old(storage).healthy() {
            assert(storage@ =~= merged_view(f));
        }
    }
    ApplicationError::NoError
}

/// Write only the scalar fields of an incoming record, in the declared
/// order, leaving both collections as they are.
pub fn sync_scalars(frontend: FrontendStorage, storage: &mut Storage) -> (r: ApplicationError)
    ensures
        r == ApplicationError::NoError || r == ApplicationError::MutexPoisonedError,
        ({
            let scalars_healthy = !old(storage).wk_name.is_poisoned() && !old(
                storage,
            ).wk_date.is_poisoned() && !old(storage).wk_place.is_poisoned() && !old(
                storage,
            ).wk_responsible_person.is_poisoned() && !old(
                storage,
            ).wk_judgesmeeting_time.is_poisoned();
            &&& (r == ApplicationError::NoError <==> scalars_healthy)
            &&& (scalars_healthy ==> final(storage)@ == StorageView {
                wk_name: frontend@.wk_name,
                wk_date: frontend@.wk_date,
                wk_place: frontend@.wk_place,
                wk_responsible_person: frontend@.wk_responsible_person,
                wk_judgesmeeting_time: frontend@.wk_judgesmeeting_time,
                wk_replacement_judges: old(storage)@.wk_replacement_judges,
                wk_judgingtables: old(storage)@.wk_judgingtables,
            })
        }),
        final(storage).wk_replacement_judges == old(storage).wk_replacement_judges,
        final(storage).wk_judgingtables == old(storage).wk_judgingtables,
{
    let FrontendStorage {
        wk_name,
        wk_date,
        wk_place,
        wk_responsible_person,
        wk_judgesmeeting_time,
        wk_replacement_judges: _,
        wk_judgingtables: _,
    } = frontend;
    if storage.wk_name.write(wk_name).is_err() {
        return ApplicationError::MutexPoisonedError;
    }
    if storage.wk_date.write(wk_date).is_err() {
        return ApplicationError::MutexPoisonedError;
    }
    if storage.wk_place.write(wk_place).is_err() {
        return ApplicationError::MutexPoisonedError;
    }
    if storage.wk_responsible_person.write(wk_responsible_person).is_err() {
        return ApplicationError::MutexPoisonedError;
    }
    if storage.wk_judgesmeeting_time.write(wk_judgesmeeting_time).is_err() {
        return ApplicationError::MutexPoisonedError;
    }
    proof {
        assert(storage@ =~= StorageView {
            wk_name: frontend@.wk_name,
            wk_date: frontend@.wk_date,
            wk_place: frontend@.wk_place,
            wk_responsible_person: frontend@.wk_responsible_person,
            wk_judgesmeeting_time: frontend@.wk_judgesmeeting_time,
            wk_replacement_judges: old(storage)@.wk_replacement_judges,
            wk_judgingtables: old(storage)@.wk_judgingtables,
        });
    }
    ApplicationError::NoError
}

/// Build the wire-shaped record the front end is given: field by field, in
/// the declared order, each lock released before the next is taken. The two
/// collection fields always come back present — an empty collection is sent
/// as an empty collection, never as an absent one.
pub fn export_outgoing(storage: &Storage, save_path: &Option<String>) -> (r: Result<
    (FrontendStorage, Option<String>),
    ApplicationError,
>)
    ensures
        r is Ok <==> storage.healthy(),
        r is Err ==> r->Err_0 == ApplicationError::MutexPoisonedError,
        r is Ok ==> ({
            let f = r->Ok_0.0@;
            &&& f.wk_name == storage@.wk_name
            &&& f.wk_date == storage@.wk_date
            &&& f.wk_place == storage@.wk_place
            &&& f.wk_responsible_person == storage@.wk_responsible_person
            &&& f.wk_judgesmeeting_time == storage@.wk_judgesmeeting_time
            &&& f.wk_replacement_judges == Some(storage@.wk_replacement_judges)
            &&& f.wk_judgingtables == Some(storage@.wk_judgingtables)
        }),
        r is Ok ==> ({
            let p = &r->Ok_0.1;
            match save_path {
                Some(s) => p is Some && p->Some_0@ == s@,
                None => p is None,
            }
        }),
{
    let wk_name = match storage.wk_name.read() {
        Ok(v) => v.clone(),
        Err(e) => { return Err(e); },
    };
    let wk_date = match storage.wk_date.read() {
        Ok(v) => v.clone(),
        Err(e) => { return Err(e); },
    };
    let wk_place = match storage.wk_place.read() {
        Ok(v) => v.clone(),
        Err(e) => { return Err(e); },
    };
    let wk_responsible_person = match storage.wk_responsible_person.read() {
        Ok(v) => v.clone(),
        Err(e) => { return Err(e); },
    };
    let wk_judgesmeeting_time = match storage.wk_judgesmeeting_time.read() {
        Ok(v) => v.clone(),
        Err(e) => { return Err(e); },
    };
    let wk_replacement_judges = match storage.wk_replacement_judges.read() {
        Ok(v) => Some(clone_names(v)),
        Err(e) => { return Err(e); },
    };
    let wk_judgingtables = match storage.wk_judgingtables.read() {
        Ok(v) => Some(clone_tables(v)),
        Err(e) => { return Err(e); },
    };
    let path = match save_path {
        Some(s) => Some(s.clone()),
        None => None,
    };
    Ok((FrontendStorage {
        wk_name,
        wk_date,
        wk_place,
        wk_responsible_person,
        wk_judgesmeeting_time,
        wk_replacement_judges,
        wk_judgingtables,
    }, path))
}

/// Replace the shared record wholesale from a freshly decoded one, field by
/// field in the declared order. The source must have healthy locks; the
/// first poisoned target lock stops the walk.
pub fn replace_from_storage(storage: &mut Storage, imported: Storage) -> (r: ApplicationError)
    requires
        imported.healthy(),
    ensures
        r == ApplicationError::NoError <==> old(storage).healthy(),
        r != ApplicationError::NoError ==> r == ApplicationError::MutexPoisonedError,
        old(storage).healthy() ==> final(storage).healthy() && final(storage)@ == imported@,
{
    let ghost iv = imported@;
    let Storage {
        wk_name,
        wk_date,
        wk_place,
        wk_responsible_person,
        wk_judgesmeeting_time,
        wk_replacement_judges,
        wk_judgingtables,
    } = imported;
    if storage.wk_name.write(wk_name.into_value()).is_err() {
        return ApplicationError::MutexPoisonedError;
    }
    if storage.wk_date.write(wk_date.into_value()).is_err() {
        return ApplicationError::MutexPoisonedError;
    }
    if storage.wk_place.write(wk_place.into_value()).is_err() {
        return ApplicationError::MutexPoisonedError;
    }
    if storage.wk_responsible_person.write(wk_responsible_person.into_value()).is_err() {
        return ApplicationError::MutexPoisonedError;
    }
    if storage.wk_judgesmeeting_time.write(wk_judgesmeeting_time.into_value()).is_err() {
        return ApplicationError::MutexPoisonedError;
    }
    if storage.wk_replacement_judges.write(wk_replacement_judges.into_value()).is_err() {
        return ApplicationError::MutexPoisonedError;
    }
    if storage.wk_judgingtables.write(wk_judgingtables.into_value()).is_err() {
        return ApplicationError::MutexPoisonedError;
    }
    proof {
        if old(storage).healthy() {
            assert(storage@ =~= iv);
        }
    }
    ApplicationError::NoError
}

/// Copy a list of names while holding its field lock.
fn clone_names(l: &Vec<String>) -> (r: Vec<String>)
    ensures
        names_view(r@) == names_view(l@),
{
    let mut r: Vec<String> = Vec::new();
    let mut i: usize = 0;
    while i < l.len()
        invariant
            i <= l.len(),
            r@.len() == i,
            forall|k: int| 0 <= k < i ==> r@[k]@ == l@[k]@,
        decreases l.len() - i,
    {
        r.push(l[i].clone());
        i = i + 1;
    }
    proof {
        assert(names_view(r@) =~= names_view(l@));
    }
    r
}

/// Copy a table mapping while holding its field lock.
fn clone_tables(m: &Vec<(String, Kampfgericht)>) -> (r: Vec<(String, Kampfgericht)>)
    ensures
        tables_view(r@) == tables_view(m@),
{
    let mut r: Vec<(String, Kampfgericht)> = Vec::new();
    let mut i: usize = 0;
    while i < m.len()
        invariant
            i <= m.len(),
            r@.len() == i,
            forall|k: int| 0 <= k < i ==> r@[k].0@ == m@[k].0@ && r@[k].1@ == m@[k].1@,
        decreases m.len() - i,
    {
        let key = m[i].0.clone();
        let table = clone_table(&m[i].1);
        r.push((key, table));
        i = i + 1;
    }
    proof {
        assert(tables_view(r@) =~= tables_view(m@));
    }
    r
}

/// Copy one judging table.
fn clone_table(t: &Kampfgericht) -> (r: Kampfgericht)
    ensures
        r@ == t@,
{
    let mut judges: Vec<(String, crate::types::Kampfrichter)> = Vec::new();
    let mut i: usize = 0;
    while i < t.judges.len()
        invariant
            i <= t.judges.len(),
            judges@.len() == i,
            forall|k: int| 0 <= k < i ==> judges@[k].0@ == t.judges@[k].0@ && judges@[k].1@
                == t.judges@[k].1@,
        decreases t.judges.len() - i,
    {
        let key = t.judges[i].0.clone();
        let j = &t.judges[i].1;
        judges.push((key, crate::types::Kampfrichter {
            role: j.role.clone(),
            name: j.name.clone(),
            doubleFound: j.doubleFound,
        }));
        i = i + 1;
    }
    let r = Kampfgericht {
        uniqueID: t.uniqueID.clone(),
        table_name: t.table_name.clone(),
        table_kind: t.table_kind.clone(),
        table_is_finale: t.table_is_finale,
        judges,
    };
    proof {
        assert(r@.judges =~= t@.judges);
        assert(r@ =~= t@);
    }
    r
}

} // verus!
