//! Sending invocation requests to the sandbox service. The client knows
//! where the service listens and gives each request its id; the sending itself
//! is up to the caller.

use crate::error::{Error, ErrorKind};
use crate::invoke::{InvokeRequest, InvokeRequestView, NIL_ID};
use vstd::prelude::*;

verus! {

#[derive(Debug, PartialEq, Eq)]
pub enum PoolInner {
    Http { addr: String },
}

/// A set of invokers.
#[derive(Debug, PartialEq, Eq)]
pub struct Pool(pub PoolInner);

impl Pool {
    /// The pool of the invoker that listens at this address, or of several
    /// invokers behind a load balancer at this address.
    pub fn new_from_address(address: &str) -> (r: Pool)
        ensures
            r.0 matches PoolInner::Http { addr } && addr@ == address@,
    {
        Pool(PoolInner::Http { addr: String::from_str(address) })
    }
}

/// The builder of a `Client`.
#[derive(Debug, PartialEq, Eq)]
pub struct ClientBuilder {
    pub pools: Vec<PoolInner>,
}

impl ClientBuilder {
    /// Adds a pool, after those that were added before.
    pub fn add(&mut self, pool: Pool)
        ensures
            final(self).pools@ == old(self).pools@.push(pool.0),
    {
        self.pools.push(pool.0);
    }

    pub fn build(self) -> (r: Client)
        ensures
            r.pools == self.pools,
    {
        Client { pools: self.pools }
    }
}

/// Like a pool of database connections, but for invokers.
#[derive(Debug, PartialEq, Eq)]
pub struct Client {
    pub pools: Vec<PoolInner>,
}

/// One invoker, or several that cannot be told apart.
#[derive(Debug, PartialEq, Eq)]
pub struct Instance {
    pub address: String,
}

/// A request that is ready to be sent: where to, and what.
#[derive(Debug, PartialEq, Eq)]
pub struct Outgoing {
    pub url: String,
    pub request: InvokeRequest,
}

/// The bits of a UUID that hold its version and its variant.
pub const VERSION_AND_VARIANT: u128 = 0x0000_0000_0000_f000_c000_0000_0000_0000;

/// Those bits in a random UUID (version 4, variant 1).
pub const RANDOM_UUID: u128 = 0x0000_0000_0000_4000_8000_0000_0000_0000;

/// Whether a number is a random UUID by its version and its variant.
pub open spec fn is_random_uuid(id: u128) -> bool {
    id & VERSION_AND_VARIANT == RANDOM_UUID
}

/// `Uuid::new_v4`, as a number: 122 random bits under the version and the
/// variant of a random UUID. The call fails only where the system has no
/// random bytes to give.
#[verifier::external_body]
fn fresh_id() -> (r: u128)
    ensures
        is_random_uuid(r),
{
    uuid::Uuid::new_v4().as_u128()
}

/// A random UUID is never the nil UUID.
pub proof fn random_uuid_is_not_nil(id: u128)
    requires
        is_random_uuid(id),
    ensures
        id != NIL_ID,
{
    assert(id & 0x0000_0000_0000_f000_c000_0000_0000_0000u128
        == 0x0000_0000_0000_4000_8000_0000_0000_0000u128 ==> id != 0u128) by (bit_vector);
}

impl Client {
    /// Creates a new builder, without pools.
    pub fn builder() -> (r: ClientBuilder)
        ensures
            r.pools@.len() == 0,
    {
        ClientBuilder { pools: Vec::new() }
    }

    /// The invoker to talk to: that of the first pool.
    pub fn instance(&self) -> (r: Result<Instance, Error>)
        ensures
            self.pools@.len() == 0 ==> r is Err && r->Err_0.kind == ErrorKind::NoPoolsConfigured,
            self.pools@.len() > 0 ==> r is Ok && (self.pools@[0] matches PoolInner::Http { addr }
                && r->Ok_0.address@ == addr@),
    {
        if self.pools.len() == 0 {
            return Err(Error::new(ErrorKind::NoPoolsConfigured, "no pools configured"));
        }
        match &self.pools[0] {
            PoolInner::Http { addr } => Ok(Instance { address: addr.clone() }),
        }
    }
}

impl Instance {
    /// Where requests for this invoker go.
    pub open spec fn endpoint(&self) -> Seq<char> {
        self.address@ + "/exec"@
    }

    /// Makes a request ready to be sent under the id `id`. A request that
    /// has an id already is refused.
    pub fn dispatch(&self, req: InvokeRequest, id: u128) -> (r: Result<Outgoing, Error>)
        ensures
            req.id != NIL_ID ==> r is Err && r->Err_0.kind == ErrorKind::RequestIdNotNil,
            req.id == NIL_ID ==> r is Ok && r->Ok_0.url@ == self.endpoint()
                && r->Ok_0.request.deep_view() == (InvokeRequestView { id, ..req.deep_view() }),
    {
        if req.id != NIL_ID {
            return Err(Error::new(ErrorKind::RequestIdNotNil, "request id is not nil"));
        }
        let mut url = self.address.clone();
        url.append("/exec");
        let mut request = req;
        request.id = id;
        Ok(Outgoing { url, request })
    }

    /// Makes a request ready to be sent, under a fresh random id.
    pub fn call(&self, req: InvokeRequest) -> (r: Result<Outgoing, Error>)
        ensures
            req.id != NIL_ID ==> r is Err && r->Err_0.kind == ErrorKind::RequestIdNotNil,
            req.id == NIL_ID ==> r is Ok && r->Ok_0.url@ == self.endpoint() && is_random_uuid(
                r->Ok_0.request.id,
            ) && r->Ok_0.request.id != NIL_ID && r->Ok_0.request.deep_view() == (InvokeRequestView {
                id: r->Ok_0.request.id,
                ..req.deep_view()
            }),
    {
        let id = fresh_id();
        proof {
            random_uuid_is_not_nil(id);
        }
        self.dispatch(req, id)
    }
}

} // verus!
