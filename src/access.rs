use vstd::prelude::*;
use vstd::string::StringSliceAdditionalSpecFns;

verus! {

/// The bytes of the protected path prefix, `/static`.
pub open spec fn protected_prefix() -> Seq<u8> {
    seq![0x2fu8, 0x73u8, 0x74u8, 0x61u8, 0x74u8, 0x69u8, 0x63u8]
}

/// A request path is protected when its bytes begin with `/static`.
pub open spec fn is_protected(path: Seq<u8>) -> bool {
    path.len() >= protected_prefix().len() && path.subrange(0, protected_prefix().len() as int)
        == protected_prefix()
}

/// What the identity check does with one request.
#[derive(PartialEq, Eq, Structural, Clone, Copy, Debug)]
pub enum GateVerdict {
    /// Hand the request to the wrapped service unchanged.
    Forward,
    /// Answer with a temporary redirect to `/` without calling the wrapped service.
    Redirect,
}

/// The identity check's decision: a pure function of whether the path is protected and
/// whether a principal is attached.
pub open spec fn gate_verdict(path: Seq<u8>, has_principal: bool) -> GateVerdict {
    if is_protected(path) && !has_principal {
        GateVerdict::Redirect
    } else {
        GateVerdict::Forward
    }
}

/// Tells whether `path` lies under the protected prefix.
pub fn is_protected_path(path: &str) -> (r: bool)
    ensures
        r == is_protected(path.spec_bytes()),
{
    let b = path.as_bytes();
    if b.len() < 7 {
        return false;
    }
    let r = b[0] == 0x2f && b[1] == 0x73 && b[2] == 0x74 && b[3] == 0x61 && b[4] == 0x74 && b[5]
        == 0x69 && b[6] == 0x63;
    proof {
        if r {
            assert(b@.subrange(0, 7) =~= protected_prefix());
        } else {
            assert(b@.subrange(0, 7) != protected_prefix()) by {
                if b@.subrange(0, 7) == protected_prefix() {
                    assert(b@.subrange(0, 7)[0] == b@[0]);
                    assert(b@.subrange(0, 7)[1] == b@[1]);
                    assert(b@.subrange(0, 7)[2] == b@[2]);
                    assert(b@.subrange(0, 7)[3] == b@[3]);
                    assert(b@.subrange(0, 7)[4] == b@[4]);
                    assert(b@.subrange(0, 7)[5] == b@[5]);
                    assert(b@.subrange(0, 7)[6] == b@[6]);
                }
            }
        }
    }
    r
}

/// The location that a rejected request is redirected to.
pub fn redirect_location() -> (r: &'static str)
    ensures
        r@ == seq!['/'],
{
    proof {
        reveal_strlit("/");
    }
    "/"
}

/// The middleware factory: wraps a service in the identity check.
pub struct StaticFileIdentityCheckService;

/// The identity check around an inner service.
pub struct StaticFileIdentityCheck<S> {
    service: S,
}

impl StaticFileIdentityCheckService {
    /// Wraps `service` in the identity check.
    pub fn create<S>(&self, service: S) -> (r: StaticFileIdentityCheck<S>)
        ensures
            r.inner() == service,
    {
        StaticFileIdentityCheck { service }
    }
}

impl<S> StaticFileIdentityCheck<S> {
    /// The wrapped service.
    pub closed spec fn inner(&self) -> S {
        self.service
    }

    /// Borrows the wrapped service.
    pub fn service(&self) -> (r: &S)
        ensures
            *r == self.inner(),
    {
        &self.service
    }

    /// Decides what happens to a request for `path`.
    pub fn verdict(&self, path: &str, has_principal: bool) -> (r: GateVerdict)
        ensures
            r == gate_verdict(path.spec_bytes(), has_principal),
    {
        if is_protected_path(path) && !has_principal {
            GateVerdict::Redirect
        } else {
            GateVerdict::Forward
        }
    }

    /// Handles one request: `forward` hands it to the wrapped service and is
    /// called only on a forward verdict; `reject` builds the redirect and is
    /// called only on a redirect verdict. The result is that of the one called,
    /// passed through as it came.
    pub fn call<Req, Resp, F, G>(
        &self,
        path: &str,
        has_principal: bool,
        req: Req,
        forward: F,
        reject: G,
    ) -> (r: Resp) where F: FnOnce(&S, Req) -> Resp, G: FnOnce(Req) -> Resp
        requires
            gate_verdict(path.spec_bytes(), has_principal) == GateVerdict::Forward ==> forward.requires((&self.inner(), req)),
            gate_verdict(path.spec_bytes(), has_principal) == GateVerdict::Redirect ==> reject.requires((req,)),
        ensures
            gate_verdict(path.spec_bytes(), has_principal) == GateVerdict::Forward ==> forward.ensures((&self.inner(), req), r),
            gate_verdict(path.spec_bytes(), has_principal) == GateVerdict::Redirect ==> reject.ensures((req,), r),
    {
        match self.verdict(path, has_principal) {
            GateVerdict::Forward => forward(&self.service, req),
            GateVerdict::Redirect => reject(req),
        }
    }
}

/// A request to a protected path without a principal is always redirected,
/// so the wrapped service is never reached.
pub proof fn lemma_protected_without_principal_redirects(path: Seq<u8>)
    requires
        is_protected(path),
    ensures
        gate_verdict(path, false) == GateVerdict::Redirect,
{
}

/// A request to a protected path with a principal is always forwarded.
pub proof fn lemma_protected_with_principal_forwards(path: Seq<u8>)
    requires
        is_protected(path),
    ensures
        gate_verdict(path, true) == GateVerdict::Forward,
{
}

/// Outside the protected prefix the verdict does not depend on the principal:
/// every such request is forwarded.
pub proof fn lemma_unprotected_ignores_principal(path: Seq<u8>)
    requires
        !is_protected(path),
    ensures
        gate_verdict(path, true) == gate_verdict(path, false),
        gate_verdict(path, false) == GateVerdict::Forward,
{
}

} // verus!
