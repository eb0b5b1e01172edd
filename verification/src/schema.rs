//! Schema initializer: ensure the target database exists and is migrated.
//!
//! The strict order is: existence check, then create-if-absent, then migrate
//! unconditionally (the migration runner itself is idempotent). Migration
//! never runs against an engine that is not `Running`, which the precondition
//! of `ensure_database` pins down. The create and migrate statements are
//! executed by the unverified shell; this module decides them and tracks the
//! schema-level state they leave behind.

use vstd::prelude::*;
use crate::supervisor::ServerHandle;
use crate::supervisor::connectable;

verus! {

/// One database known to the engine, with whether migrations ran against it.
#[derive(Debug, Clone, PartialEq, Eq)]
pub struct DatabaseRecord {
    /// The database name, unique among the records.
    pub name: String,
    /// Whether the migration runner has been applied to this database.
    pub migrated: bool,
}

/// Schema-level state of the running engine: the databases in creation order.
#[derive(Debug, Clone, PartialEq, Eq)]
pub struct SchemaState {
    /// The records, first created first.
    pub dbs: Vec<DatabaseRecord>,
}

/// The view of a schema state: each database's name and migrated flag, in
/// creation order.
pub open spec fn schema_view(s: SchemaState) -> Seq<(Seq<char>, bool)> {
    s.dbs@.map_values(|r: DatabaseRecord| (r.name@, r.migrated))
}

/// Index of the first record named `n`, or -1 when none is.
pub open spec fn db_index(v: Seq<(Seq<char>, bool)>, n: Seq<char>) -> int
    decreases v.len(),
{
    if v.len() == 0 {
        -1
    } else if v[0].0 == n {
        0
    } else {
        let r = db_index(v.drop_first(), n);
        if r == -1 {
            -1
        } else {
            r + 1
        }
    }
}

/// What one `ensure_database` call leaves behind: the record for `n` present
/// and migrated, every other record untouched, creation order kept.
pub open spec fn ensure_spec(v: Seq<(Seq<char>, bool)>, n: Seq<char>) -> Seq<(Seq<char>, bool)> {
    if db_index(v, n) == -1 {
        v.push((n, true))
    } else {
        v.update(db_index(v, n), (n, true))
    }
}

/// `db_index` finds exactly the first record named `n`.
pub proof fn lemma_db_index_characterizes(v: Seq<(Seq<char>, bool)>, n: Seq<char>)
    ensures
        (db_index(v, n) == -1) <==> (forall|j: int| 0 <= j < v.len() ==> v[j].0 != n),
        db_index(v, n) != -1 ==> {
            &&& 0 <= db_index(v, n) < v.len()
            &&& v[db_index(v, n)].0 == n
            &&& forall|j: int| 0 <= j < db_index(v, n) ==> v[j].0 != n
        },
    decreases v.len(),
{
    if v.len() == 0 {
    } else if v[0].0 == n {
    } else {
        let w = v.drop_first();
        lemma_db_index_characterizes(w, n);
        assert(forall|j: int| 0 <= j < w.len() ==> w[j] == v[j + 1]);
        let r = db_index(w, n);
        if r == -1 {
            assert(db_index(v, n) == -1);
            assert forall|j: int| 0 <= j < v.len() implies v[j].0 != n by {
                if j > 0 {
                    assert(w[j - 1] == v[j]);
                }
            }
        } else {
            assert(db_index(v, n) == r + 1);
            assert(v[r + 1] == w[r]);
            assert forall|j: int| 0 <= j < r + 1 implies v[j].0 != n by {
                if j > 0 {
                    assert(w[j - 1] == v[j]);
                }
            }
        }
    }
}

impl SchemaState {
    /// The state of an engine on empty storage: no databases at all.
    pub fn on_empty_storage() -> (s: SchemaState)
        ensures
            schema_view(s) == Seq::<(Seq<char>, bool)>::empty(),
    {
        let s = SchemaState { dbs: Vec::new() };
        proof {
            assert(schema_view(s) =~= Seq::<(Seq<char>, bool)>::empty());
        }
        s
    }

    /// Index of the record named `name`, if any.
    fn find_db(&self, name: &String) -> (r: Option<usize>)
        ensures
            match r {
                Some(i) => db_index(schema_view(*self), name@) == i,
                None => db_index(schema_view(*self), name@) == -1,
            },
    {
        let mut i: usize = 0;
        while i < self.dbs.len()
            invariant
                i <= self.dbs@.len(),
                forall|j: int| 0 <= j < i ==> self.dbs@[j].name@ != name@,
            decreases self.dbs@.len() - i,
        {
            if self.dbs[i].name == *name {
                proof {
                    let v = schema_view(*self);
                    lemma_db_index_characterizes(v, name@);
                    assert(v[i as int].0 == name@);
                    let k = db_index(v, name@);
                    assert(k != -1);
                    if k < i {
                        assert(v[k].0 != name@);
                    }
                    if k > i {
                        assert(v[i as int].0 != name@);
                    }
                    assert(k == i);
                }
                return Some(i);
            }
            i += 1;
        }
        proof {
            lemma_db_index_characterizes(schema_view(*self), name@);
        }
        None
    }

    /// Ensure the database `name` exists and is migrated, in the strict
    /// order: existence check, create only if absent, migrate always.
    ///
    /// Returns whether the database had to be created. Never touches any
    /// other record and never reorders the records.
    pub fn ensure_database(&mut self, h: &ServerHandle, name: &String) -> (created: bool)
        requires
            connectable(*h),
        ensures
            schema_view(*final(self)) == ensure_spec(schema_view(*old(self)), name@),
            created <==> db_index(schema_view(*old(self)), name@) == -1,
    {
        match self.find_db(name) {
            None => {
                // Absent: create, then migrate.
                self.dbs.push(DatabaseRecord { name: name.clone(), migrated: true });
                proof {
                    assert(schema_view(*self) =~= ensure_spec(schema_view(*old(self)), name@));
                }
                true
            },
            Some(i) => {
                // Present: skip creation, migrate unconditionally.
                proof {
                    lemma_db_index_characterizes(schema_view(*old(self)), name@);
                }
                self.dbs[i] = DatabaseRecord { name: name.clone(), migrated: true };
                proof {
                    assert(schema_view(*self) =~= ensure_spec(schema_view(*old(self)), name@));
                }
                false
            },
        }
    }
}

/// Ensuring a database is idempotent: a second call with the same name leaves
/// the very state the first call left, and — since the name is then present —
/// the second call creates nothing, so none of its steps can fail on an
/// already-existing database.
pub proof fn lemma_ensure_idempotent(v: Seq<(Seq<char>, bool)>, n: Seq<char>)
    ensures
        ensure_spec(ensure_spec(v, n), n) == ensure_spec(v, n),
        db_index(ensure_spec(v, n), n) != -1,
{
    lemma_db_index_characterizes(v, n);
    let v1 = ensure_spec(v, n);
    lemma_db_index_characterizes(v1, n);
    if db_index(v, n) == -1 {
        // First call appended (n, true) at the end; nothing before it is
        // named n, so the second call finds exactly that record.
        assert(v1[v.len() as int].0 == n);
        let k = db_index(v1, n);
        assert(v1[k].0 == n);
        assert(k == v.len());
        assert(v1.update(k, (n, true)) =~= v1);
    } else {
        let i = db_index(v, n);
        assert(forall|j: int| 0 <= j < i ==> v1[j] == v[j]);
        assert(v1[i].0 == n);
        let k = db_index(v1, n);
        assert(v1[k].0 == n);
        assert(k == i);
        assert(v1.update(k, (n, true)) =~= v1);
    }
}

} // verus!
