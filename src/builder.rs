//! Configuring the tailing query over the operation log.
use vstd::prelude::*;

verus! {

/// The shared state behind a `mongodb::Client`, which is an `Arc` of it.
#[verifier::external_type_specification]
#[verifier::external_body]
pub struct ExClientInner(mongodb::ClientInner);

/// The query that opens a stream: where to read, what to return, and how the
/// cursor behaves.
pub struct TailQuery {
    pub database: String,
    pub collection: String,
    /// Only entries matching this filter are returned; none returns every entry.
    pub filter: Option<bson::Document>,
    /// The cursor stays open at the end of the data and returns what is appended.
    pub tailable: bool,
    /// A read with nothing new blocks on the server for a while.
    pub await_data: bool,
    /// The server never closes the cursor for being idle.
    pub no_cursor_timeout: bool,
}

/// Whether `q` is the tailing query over the operation log with filter `f`.
pub open spec fn is_tail_query(q: TailQuery, f: Option<bson::Document>) -> bool {
    &&& q.database@ == "local"@
    &&& q.collection@ == "oplog.rs"@
    &&& q.filter == f
    &&& q.tailable
    &&& q.await_data
    &&& q.no_cursor_timeout
}

/// A builder for a stream over the operation log, with an optional filter.
#[derive(Clone)]
pub struct OplogBuilder {
    client: mongodb::Client,
    filter: Option<bson::Document>,
}

impl OplogBuilder {
    /// The filter that building will use.
    pub closed spec fn configured_filter(&self) -> Option<bson::Document> {
        self.filter
    }

    /// The client that building will query through.
    pub closed spec fn client_spec(&self) -> mongodb::Client {
        self.client
    }

    /// This builder with its filter replaced by `f`.
    pub closed spec fn with_filter(self, f: Option<bson::Document>) -> OplogBuilder {
        OplogBuilder { client: self.client, filter: f }
    }

    /// A builder over `client`, with no filter: every entry is returned.
    pub fn new(client: mongodb::Client) -> (r: OplogBuilder)
        ensures
            r.configured_filter() is None,
            r.client_spec() == client,
    {
        OplogBuilder { client, filter: None }
    }

    /// Sets the filter, replacing any earlier one; returns the builder for
    /// chaining.
    pub fn filter(self, filter: Option<bson::Document>) -> (r: OplogBuilder)
        ensures
            r == self.with_filter(filter),
            r.configured_filter() == filter,
            r.client_spec() == self.client_spec(),
    {
        OplogBuilder { client: self.client, filter }
    }

    /// The client that building queries through.
    pub fn client(&self) -> (r: &mongodb::Client)
        ensures
            *r == self.client_spec(),
    {
        &self.client
    }

    /// The query that building issues: tailable, awaiting, never timing out,
    /// over the operation log, with the configured filter.
    pub fn query(&self) -> (r: TailQuery)
        ensures
            is_tail_query(r, self.configured_filter()),
    {
        let filter = match &self.filter {
            Some(d) => Some(d.clone()),
            None => None,
        };
        TailQuery {
            database: "local".to_owned(),
            collection: "oplog.rs".to_owned(),
            filter,
            tailable: true,
            await_data: true,
            no_cursor_timeout: true,
        }
    }
}

/// Setting the filter twice leaves only the second in effect, and the query
/// then built carries exactly that filter.
pub proof fn lemma_last_filter_wins(
    b: OplogBuilder,
    f1: Option<bson::Document>,
    f2: Option<bson::Document>,
    q: TailQuery,
)
    requires
        is_tail_query(q, b.with_filter(f1).with_filter(f2).configured_filter()),
    ensures
        b.with_filter(f1).with_filter(f2) == b.with_filter(f2),
        b.with_filter(f1).with_filter(f2).configured_filter() == f2,
        q.filter == f2,
{
}

} // verus!
