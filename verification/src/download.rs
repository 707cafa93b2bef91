//! Following a world that arrives from a server one table at a time.
//!
//! Unpacking a blob into the world is the caller's work: it reports to
//! [AsyncWorldDownload::add_blob] which table the blob carried and whether
//! it could be unpacked.

use vstd::prelude::*;
use crate::blob::{all_tables, table_name, TableIdent};

verus! {

/// What a download has come to: the tables received, how many are expected,
/// the line shown to the player, and whether a table failed.
pub struct DownloadModel {
    pub completed: Set<TableIdent>,
    pub expected: nat,
    pub status: Seq<char>,
    pub failed: bool,
}

/// The status line after a table arrived whole.
pub open spec fn got_status(t: TableIdent) -> Seq<char> {
    "Got entity table \""@ + table_name(t) + "\"..."@
}

/// The status line after a table could not be unpacked.
pub open spec fn failed_status(t: TableIdent) -> Seq<char> {
    "Failed to unpack \""@ + table_name(t) + "\"!"@
}

/// A world being filled in from the tables a server sends.
///
/// The tables received are a list with no table twice (see `wf`), whose
/// set is what the contracts speak of; Verus knows no order for a derived
/// `Ord`, so an ordered set of tables would prove nothing.
pub struct AsyncWorldDownload<W> {
    world: W,
    tables_completed: Vec<TableIdent>,
    n_tables_expected: usize,
    status: String,
    is_fail: bool,
}

impl<W> View for AsyncWorldDownload<W> {
    type V = DownloadModel;

    closed spec fn view(&self) -> DownloadModel {
        DownloadModel {
            completed: self.tables_completed@.to_set(),
            expected: self.n_tables_expected as nat,
            status: self.status@,
            failed: self.is_fail,
        }
    }
}

/// Every table receives an entry once; one of each table completes it.
proof fn lemma_all_tables_distinct()
    ensures
        all_tables().no_duplicates(),
        all_tables().len() == 14,
        all_tables().to_set().len() == 14,
        forall|t: TableIdent| #[trigger] all_tables().to_set().contains(t),
{
    let a = all_tables();
    assert(a.no_duplicates());
    a.unique_seq_to_set();
    assert forall|t: TableIdent| #[trigger] a.to_set().contains(t) by {
        match t {
            TableIdent::Blueprints => assert(a[0] == t),
            TableIdent::Grids => assert(a[1] == t),
            TableIdent::Protos => assert(a[2] == t),
            TableIdent::Parts => assert(a[3] == t),
            TableIdent::Thrusters => assert(a[4] == t),
            TableIdent::Computers => assert(a[5] == t),
            TableIdent::Asteroids => assert(a[6] == t),
            TableIdent::Chunks => assert(a[7] == t),
            TableIdent::Tiles => assert(a[8] == t),
            TableIdent::Inventories => assert(a[9] == t),
            TableIdent::Machines => assert(a[10] == t),
            TableIdent::Pipes => assert(a[11] == t),
            TableIdent::Lights => assert(a[12] == t),
            TableIdent::Excavators => assert(a[13] == t),
        }
    }
}

/// The number of distinct tables received is at most the number of tables,
/// and reaches it exactly when every table has been received.
proof fn lemma_completed_len(s: Seq<TableIdent>)
    requires
        s.no_duplicates(),
    ensures
        s.len() == s.to_set().len(),
        s.len() <= 14,
        s.len() == 14 <==> (forall|t: TableIdent| #[trigger] s.to_set().contains(t)),
{
    lemma_all_tables_distinct();
    s.unique_seq_to_set();
    let full = all_tables().to_set();
    assert(s.to_set().subset_of(full));
    vstd::set_lib::lemma_len_subset(s.to_set(), full);
    if s.len() == 14 {
        vstd::set_lib::lemma_subset_equality(s.to_set(), full);
    }
    if forall|t: TableIdent| #[trigger] s.to_set().contains(t) {
        assert(s.to_set() =~= full);
    }
}

impl<W> AsyncWorldDownload<W> {
    /// The bookkeeping holds together: no table is listed twice, and every
    /// table is expected.
    pub closed spec fn wf(&self) -> bool {
        &&& self.tables_completed@.no_duplicates()
        &&& self.n_tables_expected == 14
    }

    /// The world as filled in so far.
    pub closed spec fn spec_world(&self) -> W {
        self.world
    }

    /// A download into `world`, which has received no table yet.
    pub fn new(world: W) -> (d: Self)
        ensures
            d.wf(),
            d@.completed == Set::<TableIdent>::empty(),
            d@.expected == 14,
            d@.status == "Requesting world from server..."@,
            !d@.failed,
            d.spec_world() == world,
    {
        let tables: [TableIdent; 14] = TableIdent::all();
        let d = AsyncWorldDownload {
            world,
            tables_completed: Vec::new(),
            n_tables_expected: tables.len(),
            status: "Requesting world from server...".to_owned(),
            is_fail: false,
        };
        assert(d.tables_completed@.to_set() =~= Set::<TableIdent>::empty());
        d
    }

    /// Records a blob that carried `table`: when it was `unpacked` into the
    /// world, the table counts as received; otherwise the download has
    /// failed. The status line says which.
    pub fn add_blob(&mut self, table: TableIdent, unpacked: bool)
        requires
            old(self).wf(),
        ensures
            final(self).wf(),
            final(self)@.expected == old(self)@.expected,
            final(self).spec_world() == old(self).spec_world(),
            final(self)@.failed == (old(self)@.failed || !unpacked),
            unpacked ==> {
                &&& final(self)@.completed == old(self)@.completed.insert(table)
                &&& final(self)@.status == got_status(table)
            },
            !unpacked ==> {
                &&& final(self)@.completed == old(self)@.completed
                &&& final(self)@.status == failed_status(table)
            },
    {
        if unpacked {
            let mut seen = false;
            let mut i: usize = 0;
            while i < self.tables_completed.len()
                invariant
                    i <= self.tables_completed@.len(),
                    seen == (exists|k: int| 0 <= k < i && self.tables_completed@[k] == table),
                decreases self.tables_completed@.len() - i,
            {
                if self.tables_completed[i] == table {
                    seen = true;
                }
                i = i + 1;
            }
            assert(seen == self.tables_completed@.contains(table));
            let ghost before = self.tables_completed@;
            if !seen {
                self.tables_completed.push(table);
                assert(self.tables_completed@ == before.push(table));
                assert(self.tables_completed@.to_set() =~= before.to_set().insert(table)) by {
                    before.lemma_push_to_set_commute(table);
                }
            } else {
                assert(before.to_set().insert(table) =~= before.to_set());
            }
            let mut s = "Got entity table \"".to_owned();
            s.append(table.name());
            s.append("\"...");
            self.status = s;
        } else {
            let mut s = "Failed to unpack \"".to_owned();
            s.append(table.name());
            s.append("\"!");
            self.status = s;
            self.is_fail = true;
        }
    }

    /// How many distinct tables have arrived.
    pub fn steps(&self) -> (n: u32)
        requires
            self.wf(),
        ensures
            n == self@.completed.len(),
            n <= self@.expected,
    {
        proof {
            lemma_completed_len(self.tables_completed@);
        }
        self.tables_completed.len() as u32
    }

    /// How many tables a whole world has.
    pub fn total(&self) -> (n: u32)
        requires
            self.wf(),
        ensures
            n == self@.expected,
    {
        self.n_tables_expected as u32
    }

    /// The line to show about the download.
    pub fn status(&self) -> (s: &str)
        ensures
            s@ == self@.status,
    {
        self.status.as_str()
    }

    /// Whether some table could not be unpacked.
    pub fn is_fail(&self) -> (b: bool)
        ensures
            b == self@.failed,
    {
        self.is_fail
    }

    /// Whether every table has arrived.
    pub fn is_complete(&self) -> (b: bool)
        requires
            self.wf(),
        ensures
            b == (forall|t: TableIdent| #[trigger] self@.completed.contains(t)),
    {
        proof {
            lemma_completed_len(self.tables_completed@);
        }
        let b = self.n_tables_expected == self.tables_completed.len();
        assert(self@.completed == self.tables_completed@.to_set());
        assert(b == (forall|t: TableIdent| #[trigger] self.tables_completed@.to_set().contains(t)));
        b
    }

    /// Gives up the download for its world.
    pub fn world(self) -> (w: W)
        ensures
            w == self.spec_world(),
    {
        self.world
    }

    /// The world, for the caller to unpack a blob into.
    pub fn world_mut(&mut self) -> (w: &mut W)
        ensures
            *w == old(self).spec_world(),
            final(self).spec_world() == *final(w),
            final(self)@ == old(self)@,
            final(self).wf() == old(self).wf(),
    {
        &mut self.world
    }
}

} // verus!
