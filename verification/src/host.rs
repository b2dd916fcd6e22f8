//! Hostname resolution. Every tenant is served by a primary host
//! `<tenant>.algolia.net` and a small set of numbered backup hosts
//! `<tenant>-<n>.algolia.net`; a `-dsn` suffix selects the dedicated search
//! network. Resolution is a pure, total function of the tenant id, the DSN
//! flag and the backup slot.

use crate::app_id::RefAppId;
use crate::text::dec_digit;
use crate::text::dec_nat;
use crate::text::push_dec_u64;
use vstd::prelude::*;

verus! {

/// The hostname for a tenant: the tenant id, then `-dsn` when the DSN flag
/// is set, then `-<slot>` for a non-zero backup slot, then the fixed service
/// domain. Slot `None` and slot `Some(0)` both resolve to the primary host.
pub open spec fn spec_host(app_id: Seq<char>, dsn: bool, backup: Option<usize>) -> Seq<char> {
    app_id + (if dsn {
        "-dsn"@
    } else {
        Seq::<char>::empty()
    }) + (match backup {
        Some(n) => if n > 0 {
            seq!['-'] + dec_nat(n as nat)
        } else {
            Seq::<char>::empty()
        },
        None => Seq::<char>::empty(),
    }) + ".algolia.net"@
}

/// A candidate host for one tenant.
#[derive(Clone, Copy, Debug)]
pub struct Host<'a> {
    app_id: RefAppId<'a>,
    dsn: bool,
    backup_number: Option<usize>,
}

impl<'a> Host<'a> {
    /// The tenant's primary host.
    pub fn new(app_id: RefAppId<'a>) -> (r: Self)
        ensures
            r.spec_resolved() == spec_host(app_id@, false, None),
    {
        Host { app_id, dsn: false, backup_number: None }
    }

    /// The tenant's host with the DSN flag as given.
    pub fn with_dsn(app_id: RefAppId<'a>, dsn: bool) -> (r: Self)
        ensures
            r.spec_resolved() == spec_host(app_id@, dsn, None),
    {
        Host { app_id, dsn, backup_number: None }
    }

    /// The tenant's host for a backup slot. A slot of `0` is the same thing
    /// as `None`: both resolve to the primary host.
    pub fn with_backup(app_id: RefAppId<'a>, backup_number: Option<usize>) -> (r: Self)
        ensures
            r.spec_resolved() == spec_host(app_id@, false, backup_number),
    {
        Host { app_id, dsn: false, backup_number }
    }

    /// What `resolve` returns for this candidate; pinned down against
    /// `spec_host` by each constructor's `ensures`.
    pub closed spec fn spec_resolved(&self) -> Seq<char> {
        spec_host(self.app_id@, self.dsn, self.backup_number)
    }

    /// The hostname for this candidate.
    pub fn resolve(&self) -> (r: String)
        ensures
            r@ == self.spec_resolved(),
    {
        let mut out = String::from_str(self.app_id.as_str());
        if self.dsn {
            out.append("-dsn");
        }
        if let Some(n) = self.backup_number {
            if n > 0 {
                out.append("-");
                push_dec_u64(&mut out, n as u64);
            }
        }
        out.append(".algolia.net");
        proof {
            reveal_strlit("-");
            assert(out@ =~= self.spec_resolved());
        }
        out
    }
}

/// Law: with the DSN flag off and no backup slot (or backup slot `0`), the
/// resolved hostname is exactly the tenant id followed by the fixed domain:
/// no slot suffix appears.
pub proof fn lemma_primary_host(app_id: Seq<char>, backup: Option<usize>)
    requires
        backup is None || backup == Some(0usize),
    ensures
        spec_host(app_id, false, backup) == app_id + ".algolia.net"@,
{
    assert(spec_host(app_id, false, backup) =~= app_id + ".algolia.net"@);
}

/// Law: with the DSN flag off and backup slot `2`, the resolved hostname is
/// the tenant id followed by `-2` and the fixed domain; in particular it
/// ends in `-2.algolia.net`.
pub proof fn lemma_backup_host_two(app_id: Seq<char>)
    ensures
        spec_host(app_id, false, Some(2usize)) == app_id + "-2.algolia.net"@,
{
    reveal_strlit("-");
    reveal_strlit("-2.algolia.net");
    reveal_strlit(".algolia.net");
    assert(dec_nat(2nat) == seq![dec_digit(2)]) by {
        reveal_with_fuel(dec_nat, 2);
    }
    assert(spec_host(app_id, false, Some(2usize)) =~= app_id + "-2.algolia.net"@);
}

} // verus!
