//! Route construction: pure string building, one shape per route kind,
//! relative to `https://<host>/<version>/`. Index names and object ids are
//! embedded as supplied; URL-escaping of path components is the transport's
//! concern.

use crate::task::TaskId;
use crate::text::dec_nat;
use crate::text::push_dec_u64;
use vstd::prelude::*;

verus! {

/// The index-level operations that have a fixed trailing path segment.
#[derive(Copy, Clone, Debug)]
pub enum IndexRouteKind {
    Query,
    Settings,
    Batch,
}

impl IndexRouteKind {
    /// The trailing path segment for this operation.
    pub open spec fn rendered(self) -> Seq<char> {
        match self {
            IndexRouteKind::Query => "query"@,
            IndexRouteKind::Settings => "settings"@,
            IndexRouteKind::Batch => "batch"@,
        }
    }

    pub fn as_str(self) -> (r: &'static str)
        ensures
            r@ == self.rendered(),
    {
        match self {
            IndexRouteKind::Query => "query",
            IndexRouteKind::Settings => "settings",
            IndexRouteKind::Batch => "batch",
        }
    }
}

/// An index-level route: `indexes/<index>` with an optional operation
/// segment.
#[derive(Copy, Clone, Debug)]
pub struct IndexRoute<'a> {
    pub index_name: &'a str,
    pub kind: Option<IndexRouteKind>,
}

/// The path of an index-level route.
pub open spec fn spec_index_route(index_name: Seq<char>, kind: Option<IndexRouteKind>) -> Seq<
    char,
> {
    "indexes/"@ + index_name + (match kind {
        Some(k) => "/"@ + k.rendered(),
        None => Seq::<char>::empty(),
    })
}

impl<'a> IndexRoute<'a> {
    /// Builds the path for this route.
    pub fn to_path(&self) -> (r: String)
        ensures
            r@ == spec_index_route(self.index_name@, self.kind),
    {
        let mut out = String::from_str("indexes/");
        out.append(self.index_name);
        if let Some(kind) = self.kind {
            out.append("/");
            out.append(kind.as_str());
        }
        proof {
            assert(out@ =~= spec_index_route(self.index_name@, self.kind));
        }
        out
    }
}

/// An object-level route: `indexes/<index>/<object_id>`, with `/partial`
/// appended for a partial update.
#[derive(Copy, Clone, Debug)]
pub struct ObjectRoute<'a> {
    pub index_name: &'a str,
    pub object_id: &'a str,
    pub partial: bool,
}

/// The path of an object-level route.
pub open spec fn spec_object_route(index_name: Seq<char>, object_id: Seq<char>, partial: bool) -> Seq<
    char,
> {
    "indexes/"@ + index_name + "/"@ + object_id + (if partial {
        "/partial"@
    } else {
        Seq::<char>::empty()
    })
}

impl<'a> ObjectRoute<'a> {
    /// Builds the path for this route.
    pub fn to_path(&self) -> (r: String)
        ensures
            r@ == spec_object_route(self.index_name@, self.object_id@, self.partial),
    {
        let mut out = String::from_str("indexes/");
        out.append(self.index_name);
        out.append("/");
        out.append(self.object_id);
        if self.partial {
            out.append("/partial");
        }
        proof {
            assert(out@ =~= spec_object_route(self.index_name@, self.object_id@, self.partial));
        }
        out
    }
}

/// A task-status route: `indexes/<index>/task/<task_id>`.
#[derive(Copy, Clone, Debug)]
pub struct TaskRoute<'a> {
    pub index_name: &'a str,
    pub task_id: TaskId,
}

/// The path of a task-status route.
pub open spec fn spec_task_route(index_name: Seq<char>, task_id: TaskId) -> Seq<char> {
    "indexes/"@ + index_name + "/task/"@ + dec_nat(task_id.0 as nat)
}

impl<'a> TaskRoute<'a> {
    /// Builds the path for this route.
    pub fn to_path(&self) -> (r: String)
        ensures
            r@ == spec_task_route(self.index_name@, self.task_id),
    {
        let mut out = String::from_str("indexes/");
        out.append(self.index_name);
        out.append("/task/");
        push_dec_u64(&mut out, self.task_id.0);
        proof {
            assert(out@ =~= spec_task_route(self.index_name@, self.task_id));
        }
        out
    }
}

} // verus!
