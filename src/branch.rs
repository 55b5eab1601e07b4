use vstd::prelude::*;
use vstd::string::StrSliceExecFns;
use vstd::string::StringExecFns;

verus! {

/// How many characters of a commit id make its short form.
pub const SHORT_ID_LEN: usize = 7;

/// The status snapshot of one branch.
pub struct BranchItem {
    /// Local branches by their own name, remote ones as `<remote>/<name>`.
    pub name: String,
    /// Full hexadecimal id of the commit the branch points to; empty if unresolved.
    pub oid: String,
    /// First line of that commit's message; empty if unresolved.
    pub summary: String,
    /// The branch is the one checked out.
    pub is_head: bool,
    /// A remote tracking branch can currently be resolved for this branch.
    pub has_upstream: bool,
    /// Tracking is configured, but the remote branch no longer exists.
    pub is_gone: bool,
}

/// The first `n` characters of `s`, or all of `s` where it is shorter.
pub open spec fn prefix_of(s: Seq<char>, n: nat) -> Seq<char> {
    if s.len() <= n {
        s
    } else {
        s.subrange(0, n as int)
    }
}

impl BranchItem {
    /// The abbreviated commit id: its first seven characters.
    pub fn short_oid(&self) -> (r: String)
        ensures
            r@ == prefix_of(self.oid@, SHORT_ID_LEN as nat),
    {
        let len = self.oid.as_str().unicode_len();
        let end = if len < SHORT_ID_LEN {
            len
        } else {
            SHORT_ID_LEN
        };
        String::from_str(self.oid.as_str().substring_char(0, end))
    }
}

impl Clone for BranchItem {
    fn clone(&self) -> (r: Self)
        ensures
            r == *self,
    {
        BranchItem {
            name: self.name.clone(),
            oid: self.oid.clone(),
            summary: self.summary.clone(),
            is_head: self.is_head,
            has_upstream: self.has_upstream,
            is_gone: self.is_gone,
        }
    }
}

/// Which sets of branches a listing includes.
#[derive(Debug, Clone, Copy, PartialEq, Eq, Structural)]
pub enum BranchQuery {
    Local,
    Remote,
    LocalAndRemote,
}

impl BranchQuery {
    pub open spec fn spec_includes_local(self) -> bool {
        self is Local || self is LocalAndRemote
    }

    pub open spec fn spec_includes_remote(self) -> bool {
        self is Remote || self is LocalAndRemote
    }

    /// The scope that follows this one in the cycle
    /// `Local -> LocalAndRemote -> Remote -> Local`.
    pub open spec fn spec_next(self) -> BranchQuery {
        match self {
            BranchQuery::Local => BranchQuery::LocalAndRemote,
            BranchQuery::LocalAndRemote => BranchQuery::Remote,
            BranchQuery::Remote => BranchQuery::Local,
        }
    }

    pub fn includes_local(&self) -> (r: bool)
        ensures
            r == self.spec_includes_local(),
    {
        match self {
            BranchQuery::Remote => false,
            _ => true,
        }
    }

    pub fn includes_remote(&self) -> (r: bool)
        ensures
            r == self.spec_includes_remote(),
    {
        match self {
            BranchQuery::Local => false,
            _ => true,
        }
    }

    pub fn next(&self) -> (r: BranchQuery)
        ensures
            r == self.spec_next(),
    {
        match self {
            BranchQuery::Local => BranchQuery::LocalAndRemote,
            BranchQuery::LocalAndRemote => BranchQuery::Remote,
            BranchQuery::Remote => BranchQuery::Local,
        }
    }
}

/// The outcome of resolving a branch's upstream in the repository.
#[derive(Debug, Clone, Copy, PartialEq, Eq, Structural)]
pub enum Upstream {
    /// The upstream branch was found.
    Resolved,
    /// The lookup failed because the upstream does not exist.
    NotFound,
    /// The lookup failed for any other reason (including no upstream configured).
    Failed,
}

/// The commit a branch points to, as the repository reports it.
pub struct CommitInfo {
    /// Full hexadecimal id.
    pub id: String,
    /// First line of the message; `None` where it cannot be read as text.
    pub summary: Option<String>,
}

/// What the repository reports about one branch ref.
pub struct BranchRecord {
    /// The branch name; `None` where it could not be read.
    pub name: Option<String>,
    /// The commit the branch points to; `None` where it could not be resolved.
    pub commit: Option<CommitInfo>,
    /// The branch is the one checked out.
    pub is_head: bool,
    /// The key `branch.<name>.remote` is set in the repository's configuration.
    pub remote_configured: bool,
    /// The key `branch.<name>.merge` is set in the repository's configuration.
    pub merge_configured: bool,
    /// The outcome of resolving the upstream branch.
    pub upstream: Upstream,
}

/// Whether a configured remote tracking branch is resolvable.
pub open spec fn spec_has_upstream(tracking_configured: bool, upstream: Upstream) -> bool {
    tracking_configured && upstream is Resolved
}

/// Whether a configured upstream has disappeared.
pub open spec fn spec_is_gone(tracking_configured: bool, upstream: Upstream) -> bool {
    tracking_configured && upstream is NotFound
}

/// A snapshot as plain values: name, commit id, summary, head, has upstream, gone.
pub type Snapshot = (Seq<char>, Seq<char>, Seq<char>, bool, bool, bool);

impl BranchRecord {
    /// Tracking is configured when both configuration keys are set.
    pub open spec fn tracking_configured(self) -> bool {
        self.remote_configured && self.merge_configured
    }
}

/// The snapshot that a record with a readable name resolves to.
pub open spec fn resolved(record: BranchRecord, name: Seq<char>) -> Snapshot {
    let (oid, summary) = match record.commit {
        Some(c) => (c.id@, match c.summary {
            Some(s) => s@,
            None => Seq::empty(),
        }),
        None => (Seq::empty(), Seq::empty()),
    };
    let configured = record.tracking_configured();
    (
        name,
        oid,
        summary,
        record.is_head,
        spec_has_upstream(configured, record.upstream),
        spec_is_gone(configured, record.upstream),
    )
}

impl BranchItem {
    /// The item as plain values.
    pub open spec fn fields(self) -> Snapshot {
        (self.name@, self.oid@, self.summary@, self.is_head, self.has_upstream, self.is_gone)
    }

    /// The upstream flags hold together: a gone branch has no upstream.
    pub open spec fn consistent(self) -> bool {
        self.is_gone ==> !self.has_upstream
    }
}

/// The upstream flags of a branch, as (has upstream, is gone).
pub fn upstream_flags(tracking_configured: bool, upstream: Upstream) -> (r: (bool, bool))
    ensures
        r.0 == spec_has_upstream(tracking_configured, upstream),
        r.1 == spec_is_gone(tracking_configured, upstream),
        !tracking_configured ==> !r.0 && !r.1,
        tracking_configured && upstream is Resolved ==> r.0 && !r.1,
        tracking_configured && upstream is NotFound ==> !r.0 && r.1,
        tracking_configured && upstream is Failed ==> !r.0 && !r.1,
{
    let has_upstream = tracking_configured && match upstream {
        Upstream::Resolved => true,
        _ => false,
    };
    let is_gone = tracking_configured && match upstream {
        Upstream::NotFound => true,
        _ => false,
    };
    (has_upstream, is_gone)
}

/// Resolves one record; a record whose name cannot be read is left out.
/// A missing commit or summary degrades to empty text.
pub fn resolve_branch(record: BranchRecord) -> (r: Option<BranchItem>)
    ensures
        record.name is None <==> r is None,
        r matches Some(item) ==> item.fields() == resolved(record, record.name->Some_0@),
        r matches Some(item) ==> item.consistent(),
        r matches Some(item) ==> (!record.tracking_configured() ==> !item.has_upstream
            && !item.is_gone),
        r matches Some(item) ==> (record.tracking_configured() && record.upstream is Resolved
            ==> item.has_upstream && !item.is_gone),
        r matches Some(item) ==> (record.tracking_configured() && record.upstream is NotFound
            ==> !item.has_upstream && item.is_gone),
{
    let BranchRecord { name, commit, is_head, remote_configured, merge_configured, upstream } =
        record;
    let name = match name {
        Some(n) => n,
        None => return None,
    };
    let (oid, summary) = match commit {
        Some(c) => {
            let s = match c.summary {
                Some(s) => s,
                None => String::new(),
            };
            (c.id, s)
        },
        None => (String::new(), String::new()),
    };
    let (has_upstream, is_gone) = upstream_flags(remote_configured && merge_configured, upstream);
    Some(BranchItem { name, oid, summary, is_head, has_upstream, is_gone })
}

/// The records of one listing that have a readable name, resolved, in order.
pub open spec fn resolve_all(records: Seq<BranchRecord>) -> Seq<Snapshot>
    decreases records.len(),
{
    if records.len() == 0 {
        Seq::empty()
    } else {
        let rest = resolve_all(records.drop_last());
        let last = records.last();
        match last.name {
            Some(n) => rest.push(resolved(last, n@)),
            None => rest,
        }
    }
}

/// The plain values of a sequence of items.
pub open spec fn fields_of(items: Seq<BranchItem>) -> Seq<Snapshot> {
    items.map_values(|b: BranchItem| b.fields())
}

/// A listing as the repository gave it; `None` where it could not be enumerated.
pub open spec fn listing(records: Option<Vec<BranchRecord>>) -> Seq<Snapshot> {
    match records {
        Some(v) => resolve_all(v@),
        None => Seq::empty(),
    }
}

fn resolve_into(records: Vec<BranchRecord>, items: &mut Vec<BranchItem>)
    ensures
        fields_of(final(items)@) == fields_of(old(items)@) + resolve_all(records@),
        forall|i: int| 0 <= i < old(items)@.len() ==> final(items)@[i] == old(items)@[i],
        forall|i: int| 0 <= i < final(items)@.len() && old(items)@.len() <= i ==> (#[trigger] final(items)@[i]).consistent(),
{
    let ghost all = records@;
    let ghost start = items@;
    let ghost n = all.len();
    let mut pending = records;
    while pending.len() > 0
        invariant
            n == all.len(),
            pending@ == all.subrange(n - pending@.len(), n as int),
            pending@.len() <= n,
            fields_of(items@) == fields_of(start) + resolve_all(all.subrange(0, n - pending@.len())),
            forall|i: int| 0 <= i < start.len() ==> items@[i] == start[i],
            start.len() <= items@.len(),
            forall|i: int| 0 <= i < items@.len() && start.len() <= i ==> (#[trigger] items@[i]).consistent(),
        decreases pending@.len(),
    {
        let ghost done = n - pending@.len();
        let record = pending.remove(0);
        proof {
            assert(record == all[done]);
            assert(all.subrange(0, done + 1).drop_last() =~= all.subrange(0, done));
            assert(pending@ =~= all.subrange(n - pending@.len(), n as int));
        }
        let ghost before = items@;
        match resolve_branch(record) {
            Some(item) => {
                items.push(item);
                assert(fields_of(items@) =~= fields_of(before).push(item.fields()));
            },
            None => {},
        }
    }
    assert(all.subrange(0, n as int) =~= all);
}

/// The snapshots of every branch in `scope`: the local listing first, then the
/// remote one. A listing that could not be enumerated contributes nothing; a
/// record whose name cannot be read is left out.
pub fn resolve_listing(
    scope: BranchQuery,
    local: Option<Vec<BranchRecord>>,
    remote: Option<Vec<BranchRecord>>,
) -> (r: Vec<BranchItem>)
    ensures
        fields_of(r@) == (if scope.spec_includes_local() {
            listing(local)
        } else {
            Seq::empty()
        }) + (if scope.spec_includes_remote() {
            listing(remote)
        } else {
            Seq::empty()
        }),
        forall|i: int| 0 <= i < r@.len() ==> (#[trigger] r@[i]).consistent(),
{
    let mut items: Vec<BranchItem> = Vec::new();
    assert(fields_of(items@) =~= Seq::empty());
    if scope.includes_local() {
        match local {
            Some(records) => resolve_into(records, &mut items),
            None => {},
        }
    }
    let ghost mid = fields_of(items@);
    if scope.includes_remote() {
        match remote {
            Some(records) => resolve_into(records, &mut items),
            None => {},
        }
    }
    proof {
        if !scope.spec_includes_local() || local is None {
            assert(mid =~= Seq::empty() + Seq::empty());
        }
        assert(fields_of(items@) =~= mid + (if scope.spec_includes_remote() {
            listing(remote)
        } else {
            Seq::empty()
        }));
    }
    items
}


/// The configuration keys that set up tracking for the branch `name`:
/// `branch.<name>.remote` and `branch.<name>.merge`.
pub fn tracking_keys(name: &str) -> (r: (String, String))
    ensures
        r.0@ == "branch."@ + name@ + ".remote"@,
        r.1@ == "branch."@ + name@ + ".merge"@,
{
    let mut remote = String::new();
    remote.append("branch.");
    remote.append(name);
    remote.append(".remote");
    let mut merge = String::new();
    merge.append("branch.");
    merge.append(name);
    merge.append(".merge");
    assert(remote@ =~= "branch."@ + name@ + ".remote"@);
    assert(merge@ =~= "branch."@ + name@ + ".merge"@);
    (remote, merge)
}

} // verus!
