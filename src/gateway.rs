//! The gateway core: request admission, receipt issuance for successful and
//! failed queries, and replay-safe receipt verification.
use vstd::prelude::*;
use vstd::string::{StrSliceExecFns, StringSliceAdditionalSpecFns};
use vstd::utf8::encode_utf8;
use crate::audit::{keep_newest, AuditLog, QueryLogEntry, Statistics, count_successes};
use crate::crypto::{digest_base64, digest_text, ed25519_public_key, random_uuid, unix_now, Signer};
use crate::encoding::SignedFields;
use crate::ledger::{ConsumeOutcome, NonceLedger};
use crate::receipt::{AccessReceipt, UnsignedReceipt};
use crate::store::ReceiptStore;

verus! {

/// How long a receipt for a successful query stays valid, in seconds.
pub const SUCCESS_TTL_SECONDS: i64 = 86400;

/// How long a receipt for a failed query stays valid, in seconds.
pub const FAILURE_TTL_SECONDS: i64 = 3600;

/// The largest page size a request may ask for.
pub const MAX_LIMIT: u32 = 1000;

/// A filter handed through to the query backend.
pub enum Filter {
    Equals { field: String, value: String },
    Passthrough { field: String, json: String },
}

pub struct QueryRequest {
    pub tenant: String,
    pub query: String,
    pub filters: Option<Vec<Filter>>,
    pub limit: Option<u32>,
    pub offset: Option<u32>,
}

pub struct GatewayConfig {
    pub host: String,
    pub port: u16,
    /// The 32 secret bytes of the service's Ed25519 key, supplied from outside.
    pub signing_key: Vec<u8>,
    /// Each tenant with its shard; the first entry for a tenant counts.
    pub tenant_shards: Vec<(String, String)>,
    pub max_query_size: usize,
    pub query_timeout_ms: u64,
}

/// Why a request was turned away before any query ran.
#[derive(PartialEq, Eq, Structural, Clone, Copy, Debug)]
pub enum RequestError {
    TenantRequired,
    QueryRequired,
    QueryTooLong,
    LimitTooHigh,
    TenantMismatch,
    TenantNotFound,
}

/// Why no receipt was issued: a freshly drawn identifier or nonce was taken.
#[derive(PartialEq, Eq, Structural, Clone, Copy, Debug)]
pub enum IssueError {
    IdentifierInUse,
}

/// Why a receipt did not verify.
#[derive(PartialEq, Eq, Structural, Clone, Copy, Debug)]
pub enum VerifyError {
    ReceiptNotFound,
    ReceiptExpired,
    ReceiptReplay,
    SignatureInvalid,
}

impl RequestError {
    /// The machine-readable class of the refusal.
    pub fn code(&self) -> (r: String)
        ensures
            r@ == (match self {
                RequestError::TenantMismatch | RequestError::TenantNotFound => "TENANT_ISOLATION_VIOLATION"@,
                _ => "INVALID_REQUEST"@,
            }),
    {
        match self {
            RequestError::TenantMismatch | RequestError::TenantNotFound => "TENANT_ISOLATION_VIOLATION".to_owned(),
            _ => "INVALID_REQUEST".to_owned(),
        }
    }

    /// A sentence for the caller.
    pub fn message(&self) -> (r: String)
        ensures
            r@ == (match self {
                RequestError::TenantRequired => "Tenant is required"@,
                RequestError::QueryRequired => "Query is required"@,
                RequestError::QueryTooLong => "Query too long"@,
                RequestError::LimitTooHigh => "Limit too high"@,
                RequestError::TenantMismatch => "Tenant mismatch in request"@,
                RequestError::TenantNotFound => "Tenant not found"@,
            }),
    {
        match self {
            RequestError::TenantRequired => "Tenant is required".to_owned(),
            RequestError::QueryRequired => "Query is required".to_owned(),
            RequestError::QueryTooLong => "Query too long".to_owned(),
            RequestError::LimitTooHigh => "Limit too high".to_owned(),
            RequestError::TenantMismatch => "Tenant mismatch in request".to_owned(),
            RequestError::TenantNotFound => "Tenant not found".to_owned(),
        }
    }
}

impl VerifyError {
    /// The machine-readable class of the failure.
    pub fn code(&self) -> (r: String)
        ensures
            r@ == (match self {
                VerifyError::ReceiptNotFound => "RECEIPT_NOT_FOUND"@,
                VerifyError::ReceiptExpired => "RECEIPT_EXPIRED"@,
                VerifyError::ReceiptReplay => "RECEIPT_REPLAY"@,
                VerifyError::SignatureInvalid => "INVALID_SIGNATURE"@,
            }),
    {
        match self {
            VerifyError::ReceiptNotFound => "RECEIPT_NOT_FOUND".to_owned(),
            VerifyError::ReceiptExpired => "RECEIPT_EXPIRED".to_owned(),
            VerifyError::ReceiptReplay => "RECEIPT_REPLAY".to_owned(),
            VerifyError::SignatureInvalid => "INVALID_SIGNATURE".to_owned(),
        }
    }

    /// A sentence for the caller.
    pub fn message(&self) -> (r: String)
        ensures
            r@ == (match self {
                VerifyError::ReceiptNotFound => "Receipt not found"@,
                VerifyError::ReceiptExpired => "Receipt has expired"@,
                VerifyError::ReceiptReplay => "Receipt nonce already used"@,
                VerifyError::SignatureInvalid => "Receipt signature is invalid"@,
            }),
    {
        match self {
            VerifyError::ReceiptNotFound => "Receipt not found".to_owned(),
            VerifyError::ReceiptExpired => "Receipt has expired".to_owned(),
            VerifyError::ReceiptReplay => "Receipt nonce already used".to_owned(),
            VerifyError::SignatureInvalid => "Receipt signature is invalid".to_owned(),
        }
    }
}

/// The shard of the first entry for `tenant`.
pub open spec fn shard_lookup(dir: Seq<(String, String)>, tenant: Seq<char>) -> Option<Seq<char>>
    decreases dir.len(),
{
    if dir.len() == 0 {
        None
    } else if dir[0].0@ == tenant {
        Some(dir[0].1@)
    } else {
        shard_lookup(dir.drop_first(), tenant)
    }
}

/// The shard of `tenant`, or `"default"` for a tenant the directory lacks.
pub open spec fn shard_for(dir: Seq<(String, String)>, tenant: Seq<char>) -> Seq<char> {
    match shard_lookup(dir, tenant) {
        Some(s) => s,
        None => "default"@,
    }
}

/// The checks on a request's own fields, in order.
pub open spec fn request_check(req: QueryRequest, max_query_size: usize) -> Result<(), RequestError> {
    if req.tenant@.len() == 0 {
        Err(RequestError::TenantRequired)
    } else if req.query@.len() == 0 {
        Err(RequestError::QueryRequired)
    } else if encode_utf8(req.query@).len() > max_query_size {
        Err(RequestError::QueryTooLong)
    } else if req.limit is Some && req.limit->Some_0 > MAX_LIMIT {
        Err(RequestError::LimitTooHigh)
    } else {
        Ok(())
    }
}

/// The isolation checks: the authenticated tenant is the one named, and known.
pub open spec fn isolation_check(
    dir: Seq<(String, String)>,
    request_tenant: Seq<char>,
    tenant: Seq<char>,
) -> Result<(), RequestError> {
    if request_tenant != tenant {
        Err(RequestError::TenantMismatch)
    } else if shard_lookup(dir, tenant) is None {
        Err(RequestError::TenantNotFound)
    } else {
        Ok(())
    }
}

/// Where verification of `id` at time `now` ends, in the order: existence,
/// expiry, replay. `None` means it verifies and consumes the nonce.
pub open spec fn verify_outcome(
    receipts: Map<u128, AccessReceipt>,
    consumed: Set<u128>,
    id: u128,
    now: i64,
) -> Option<VerifyError> {
    if !receipts.contains_key(id) {
        Some(VerifyError::ReceiptNotFound)
    } else if receipts[id].fields().expires_at < now {
        Some(VerifyError::ReceiptExpired)
    } else if consumed.contains(receipts[id].fields().nonce) {
        Some(VerifyError::ReceiptReplay)
    } else {
        None
    }
}

/// A receipt past its expiry time fails as expired, whether or not its nonce
/// was ever consumed.
pub proof fn lemma_expired_wins_over_replay(
    receipts: Map<u128, AccessReceipt>,
    consumed: Set<u128>,
    id: u128,
    now: i64,
)
    requires
        receipts.contains_key(id),
        receipts[id].fields().expires_at < now,
    ensures
        verify_outcome(receipts, consumed, id, now) == Some(VerifyError::ReceiptExpired),
        verify_outcome(receipts, consumed.remove(receipts[id].fields().nonce), id, now) == Some(
            VerifyError::ReceiptExpired,
        ),
{
}

/// Once a receipt has verified, verifying it again never succeeds: it is a
/// replay until it expires, and expired after that.
pub proof fn lemma_second_verification_fails(
    receipts: Map<u128, AccessReceipt>,
    consumed: Set<u128>,
    id: u128,
    now: i64,
    later: i64,
)
    requires
        verify_outcome(receipts, consumed, id, now) is None,
    ensures
        verify_outcome(receipts, consumed.insert(receipts[id].fields().nonce), id, later) == (if receipts[id].fields().expires_at < later {
            Some(VerifyError::ReceiptExpired)
        } else {
            Some(VerifyError::ReceiptReplay)
        }),
{
}

/// An identifier that was never issued is reported as not found, never as a
/// bad signature.
pub proof fn lemma_unknown_id_not_found(
    receipts: Map<u128, AccessReceipt>,
    consumed: Set<u128>,
    id: u128,
    now: i64,
)
    requires
        !receipts.contains_key(id),
    ensures
        verify_outcome(receipts, consumed, id, now) == Some(VerifyError::ReceiptNotFound),
{
}

/// The audit entry records these facts.
pub open spec fn records(
    e: QueryLogEntry,
    tenant: Seq<char>,
    query: Seq<char>,
    timestamp: i64,
    receipt_id: u128,
    success: bool,
    error: Option<Seq<char>>,
) -> bool {
    &&& e.tenant@ == tenant
    &&& e.query@ == query
    &&& e.timestamp == timestamp
    &&& e.receipt_id == receipt_id
    &&& e.success == success
    &&& match (e.error, error) {
        (Some(a), Some(b)) => a@ == b,
        (None, None) => true,
        _ => false,
    }
}

/// The fields of the receipt for a successful query.
pub open spec fn success_fields(
    dir: Seq<(String, String)>,
    req: QueryRequest,
    serialized_results: Seq<u8>,
    id: u128,
    nonce: u128,
    now: i64,
) -> SignedFields {
    SignedFields {
        id,
        tenant: req.tenant@,
        subject: "data_retrieval"@,
        shard: shard_for(dir, req.tenant@),
        query_hash: digest_text(encode_utf8(req.query@)),
        result_hash: digest_text(serialized_results),
        nonce,
        expires_at: (now + SUCCESS_TTL_SECONDS) as i64,
    }
}

/// The fields of the receipt for a failed query: the empty result hash marks
/// the failure.
pub open spec fn failure_fields(
    dir: Seq<(String, String)>,
    req: QueryRequest,
    id: u128,
    nonce: u128,
    now: i64,
) -> SignedFields {
    SignedFields {
        id,
        tenant: req.tenant@,
        subject: "error"@,
        shard: shard_for(dir, req.tenant@),
        query_hash: digest_text(encode_utf8(req.query@)),
        result_hash: Seq::empty(),
        nonce,
        expires_at: (now + FAILURE_TTL_SECONDS) as i64,
    }
}

pub struct RetrievalGateway {
    config: GatewayConfig,
    signer: Signer,
    nonces: NonceLedger,
    receipts: ReceiptStore,
    query_log: AuditLog,
}

impl RetrievalGateway {
    pub closed spec fn directory(&self) -> Seq<(String, String)> {
        self.config.tenant_shards@
    }

    pub closed spec fn host(&self) -> Seq<char> {
        self.config.host@
    }

    pub closed spec fn port(&self) -> u16 {
        self.config.port
    }

    pub closed spec fn query_timeout_ms(&self) -> u64 {
        self.config.query_timeout_ms
    }

    pub closed spec fn max_query_size(&self) -> usize {
        self.config.max_query_size
    }

    pub closed spec fn secret(&self) -> Seq<u8> {
        self.signer.secret_bytes()
    }

    pub closed spec fn public(&self) -> Seq<u8> {
        self.signer.public_bytes()
    }

    /// The issued receipts by identifier.
    pub closed spec fn receipts(&self) -> Map<u128, AccessReceipt> {
        self.receipts@
    }

    /// The nonces of the issued receipts.
    pub closed spec fn issued_nonces(&self) -> Set<u128> {
        self.receipts.nonces()
    }

    /// The consumed nonces with the time of consumption.
    pub closed spec fn consumed(&self) -> Map<u128, i64> {
        self.nonces@
    }

    pub closed spec fn audit(&self) -> Seq<QueryLogEntry> {
        self.query_log@
    }

    pub closed spec fn wf(&self) -> bool {
        &&& self.signer.wf()
        &&& self.receipts.wf()
        &&& self.query_log.wf()
        &&& forall|id: u128| #[trigger]
            self.receipts@.contains_key(id) ==> self.receipts@[id].sealed_by(self.signer.secret_bytes())
        &&& forall|n: u128| #[trigger]
            self.nonces@.contains_key(n) ==> self.receipts.nonces().contains(n)
    }

    /// The setup that no operation changes: directory, limits and keys.
    pub open spec fn same_setup(&self, other: &Self) -> bool {
        &&& other.directory() == self.directory()
        &&& other.max_query_size() == self.max_query_size()
        &&& other.secret() == self.secret()
        &&& other.public() == self.public()
    }

    /// Every stored receipt carries the service's signature, and the public
    /// key belongs to the service's secret key.
    pub proof fn lemma_receipts_sealed(&self, id: u128)
        requires
            self.wf(),
        ensures
            self.secret().len() == 32,
            self.public() == ed25519_public_key(self.secret()),
            self.receipts().contains_key(id) ==> self.receipts()[id].sealed_by(self.secret()),
    {
    }

    /// No two issued receipts share a nonce.
    pub proof fn lemma_issued_nonces_unique(&self, a: u128, b: u128)
        requires
            self.wf(),
            self.receipts().contains_key(a),
            self.receipts().contains_key(b),
            a != b,
        ensures
            self.receipts()[a].fields().nonce != self.receipts()[b].fields().nonce,
    {
        self.receipts.lemma_nonces_distinct(a, b);
    }

    /// Issuing a receipt with `fields` took `pre` to `post` with result `r`: it
    /// succeeds exactly when the identifier and the nonce are both unused, and
    /// then the signed receipt is stored and the attempt is logged.
    pub open spec fn issued(
        pre: &Self,
        post: &Self,
        r: Result<AccessReceipt, IssueError>,
        fields: SignedFields,
        query: Seq<char>,
        success: bool,
        error: Option<Seq<char>>,
        now: i64,
    ) -> bool {
        let fresh = !pre.receipts().contains_key(fields.id) && !pre.issued_nonces().contains(
            fields.nonce,
        );
        &&& post.wf()
        &&& pre.same_setup(post)
        &&& post.consumed() == pre.consumed()
        &&& (r is Ok) == fresh
        &&& fresh ==> {
            let rc = r->Ok_0;
            &&& rc.fields() == fields
            &&& rc.sealed_by(pre.secret())
            &&& post.receipts() == pre.receipts().insert(fields.id, post.receipts()[fields.id])
            &&& post.receipts()[fields.id].same_content(&rc)
            &&& post.issued_nonces() == pre.issued_nonces().insert(fields.nonce)
            &&& exists|e: QueryLogEntry|
                records(e, fields.tenant, query, now, fields.id, success, error)
                    && post.audit() == keep_newest(pre.audit().push(e))
        }
        &&& !fresh ==> {
            &&& r == Err::<AccessReceipt, IssueError>(IssueError::IdentifierInUse)
            &&& post.receipts() == pre.receipts()
            &&& post.issued_nonces() == pre.issued_nonces()
            &&& post.audit() == pre.audit()
        }
    }

    /// Verifying `id` at `now` took `pre` to `post` with result `r`: the
    /// existence, expiry and replay checks decide, in that order, and a receipt
    /// that passes them has its nonce consumed and is returned. The signature
    /// check that follows never fails on a stored receipt.
    pub open spec fn verified(
        pre: &Self,
        post: &Self,
        r: Result<AccessReceipt, VerifyError>,
        id: u128,
        now: i64,
    ) -> bool {
        &&& post.wf()
        &&& pre.same_setup(post)
        &&& post.receipts() == pre.receipts()
        &&& post.issued_nonces() == pre.issued_nonces()
        &&& post.audit() == pre.audit()
        &&& match verify_outcome(pre.receipts(), pre.consumed().dom(), id, now) {
            Some(e) => r == Err::<AccessReceipt, VerifyError>(e) && post.consumed() == pre.consumed(),
            None => {
                &&& r is Ok
                &&& r->Ok_0.same_content(&pre.receipts()[id])
                &&& post.consumed() == pre.consumed().insert(pre.receipts()[id].fields().nonce, now)
            },
        }
    }

    /// A receipt that was just issued verifies at any time up to its expiry,
    /// and a second verification of it fails: as a replay up to its expiry, as
    /// expired after.
    pub proof fn lemma_issue_then_verify_twice(
        g0: &Self,
        g1: &Self,
        g2: &Self,
        g3: &Self,
        r: Result<AccessReceipt, IssueError>,
        fields: SignedFields,
        query: Seq<char>,
        success: bool,
        error: Option<Seq<char>>,
        now: i64,
        r1: Result<AccessReceipt, VerifyError>,
        t1: i64,
        r2: Result<AccessReceipt, VerifyError>,
        t2: i64,
    )
        requires
            g0.wf(),
            Self::issued(g0, g1, r, fields, query, success, error, now),
            r is Ok,
            Self::verified(g1, g2, r1, fields.id, t1),
            t1 <= fields.expires_at,
            Self::verified(g2, g3, r2, fields.id, t2),
        ensures
            r1 is Ok,
            r1->Ok_0.same_content(&r->Ok_0),
            r2 == Err::<AccessReceipt, VerifyError>(
                if fields.expires_at < t2 {
                    VerifyError::ReceiptExpired
                } else {
                    VerifyError::ReceiptReplay
                },
            ),
    {
        assert(g1.receipts().contains_key(fields.id));
        assert(!g0.consumed().contains_key(fields.nonce));
        assert(g1.receipts()[fields.id].fields().nonce == fields.nonce);
    }

    /// A receipt for a failed query expires one hour after it was issued, not
    /// twenty-four.
    pub proof fn lemma_failure_receipt_lasts_one_hour(
        pre: &Self,
        post: &Self,
        r: Result<AccessReceipt, IssueError>,
        req: QueryRequest,
        error: Seq<char>,
        id: u128,
        nonce: u128,
        now: i64,
    )
        requires
            now <= i64::MAX - FAILURE_TTL_SECONDS,
            Self::issued(
                pre,
                post,
                r,
                failure_fields(pre.directory(), req, id, nonce, now),
                req.query@,
                false,
                Some(error),
                now,
            ),
            r is Ok,
        ensures
            r->Ok_0.fields().expires_at == now + FAILURE_TTL_SECONDS,
            r->Ok_0.fields().expires_at != now + SUCCESS_TTL_SECONDS,
            r->Ok_0.fields().subject == "error"@,
            r->Ok_0.fields().result_hash.len() == 0,
    {
    }

    /// A gateway with no issued receipts, consumed nonces or audit entries.
    pub fn new(config: GatewayConfig) -> (r: RetrievalGateway)
        requires
            config.signing_key@.len() == 32,
        ensures
            r.wf(),
            r.secret() == config.signing_key@,
            r.host() == config.host@,
            r.port() == config.port,
            r.query_timeout_ms() == config.query_timeout_ms,
            r.directory() == config.tenant_shards@,
            r.max_query_size() == config.max_query_size,
            r.receipts() == Map::<u128, AccessReceipt>::empty(),
            r.issued_nonces() == Set::<u128>::empty(),
            r.consumed() == Map::<u128, i64>::empty(),
            r.audit() == Seq::<QueryLogEntry>::empty(),
    {
        let signer = Signer::from_secret(config.signing_key.clone());
        RetrievalGateway {
            config,
            signer,
            nonces: NonceLedger::new(),
            receipts: ReceiptStore::new(),
            query_log: AuditLog::new(),
        }
    }

    /// Checks a request's own fields: tenant and query present, query within
    /// the size limit in bytes, page size within `MAX_LIMIT`.
    pub fn validate_query_request(&self, req: &QueryRequest) -> (r: Result<(), RequestError>)
        ensures
            r == request_check(*req, self.max_query_size()),
    {
        if req.tenant.as_str().unicode_len() == 0 {
            return Err(RequestError::TenantRequired);
        }
        if req.query.as_str().unicode_len() == 0 {
            return Err(RequestError::QueryRequired);
        }
        if req.query.as_str().as_bytes().len() > self.config.max_query_size {
            return Err(RequestError::QueryTooLong);
        }
        if let Some(limit) = req.limit {
            if limit > MAX_LIMIT {
                return Err(RequestError::LimitTooHigh);
            }
        }
        Ok(())
    }

    /// The shard of the first directory entry for `tenant`, if any.
    fn lookup_shard(&self, tenant: &String) -> (r: Option<&String>)
        ensures
            match r {
                Some(s) => shard_lookup(self.directory(), tenant@) == Some(s@),
                None => shard_lookup(self.directory(), tenant@) is None,
            },
    {
        let dir = &self.config.tenant_shards;
        let n: usize = dir.len();
        let mut i: usize = 0;
        assert(self.directory().subrange(0, n as int) =~= self.directory());
        while i < n
            invariant
                n == dir@.len(),
                i <= n,
                dir@ == self.directory(),
                shard_lookup(self.directory(), tenant@) == shard_lookup(
                    self.directory().subrange(i as int, n as int),
                    tenant@,
                ),
            decreases n - i,
        {
            let ghost rest = self.directory().subrange(i as int, n as int);
            assert(rest.drop_first() =~= self.directory().subrange(i + 1, n as int));
            assert(rest[0] == dir@[i as int]);
            if dir[i].0 == *tenant {
                return Some(&dir[i].1);
            }
            i = i + 1;
        }
        None
    }

    /// The shard that `tenant` is assigned, or `"default"`.
    pub fn get_shard_for_tenant(&self, tenant: &String) -> (r: String)
        ensures
            r@ == shard_for(self.directory(), tenant@),
    {
        match self.lookup_shard(tenant) {
            Some(s) => s.clone(),
            None => "default".to_owned(),
        }
    }

    /// Checks that the authenticated tenant is the one the request names, and
    /// that the directory knows it.
    pub fn check_tenant_isolation(&self, request_tenant: &String, tenant: &String) -> (r: Result<(), RequestError>)
        ensures
            r == isolation_check(self.directory(), request_tenant@, tenant@),
    {
        if *request_tenant != *tenant {
            return Err(RequestError::TenantMismatch);
        }
        if self.lookup_shard(tenant).is_none() {
            return Err(RequestError::TenantNotFound);
        }
        Ok(())
    }

    /// Decides whether a request may run: its own fields first, then isolation.
    pub fn admit_query(&self, request_tenant: &String, req: &QueryRequest) -> (r: Result<(), RequestError>)
        ensures
            r == (match request_check(*req, self.max_query_size()) {
                Err(e) => Err(e),
                Ok(()) => isolation_check(self.directory(), request_tenant@, req.tenant@),
            }),
    {
        match self.validate_query_request(req) {
            Err(e) => Err(e),
            Ok(()) => self.check_tenant_isolation(request_tenant, &req.tenant),
        }
    }

    /// The base64 SHA-256 digest of the exact query text.
    pub fn hash_query(&self, query: &str) -> (r: String)
        ensures
            r@ == digest_text(query.spec_bytes()),
            r@.len() == 44,
    {
        digest_base64(query.as_bytes())
    }

    /// The base64 SHA-256 digest of the canonical serialisation of a result set.
    /// Never empty, so never the failure sentinel.
    pub fn hash_results(&self, serialized_results: &str) -> (r: String)
        ensures
            r@ == digest_text(serialized_results.spec_bytes()),
            r@.len() == 44,
    {
        digest_base64(serialized_results.as_bytes())
    }

    /// The public key under which every issued receipt verifies.
    pub fn public_key(&self) -> (r: Vec<u8>)
        ensures
            r@ == self.public(),
    {
        self.signer.public_key()
    }

    /// Whether `nonce` has been consumed by a verification.
    pub fn is_nonce_used(&self, nonce: u128) -> (r: bool)
        ensures
            r == self.consumed().contains_key(nonce),
    {
        self.nonces.is_consumed(nonce)
    }

    /// Appends an audit entry.
    fn log_query(
        &mut self,
        tenant: &String,
        query: &String,
        receipt_id: u128,
        success: bool,
        error: Option<String>,
        now: i64,
    )
        requires
            old(self).wf(),
        ensures
            final(self).wf(),
            old(self).same_setup(final(self)),
            final(self).receipts() == old(self).receipts(),
            final(self).issued_nonces() == old(self).issued_nonces(),
            final(self).consumed() == old(self).consumed(),
            exists|e: QueryLogEntry|
                records(
                    e,
                    tenant@,
                    query@,
                    now,
                    receipt_id,
                    success,
                    match error {
                        Some(s) => Some(s@),
                        None => None,
                    },
                ) && final(self).audit() == keep_newest(old(self).audit().push(e)),
    {
        let ghost err = error;
        let entry = QueryLogEntry {
            tenant: tenant.clone(),
            query: query.clone(),
            timestamp: now,
            receipt_id,
            success,
            error,
        };
        assert(records(
            entry,
            tenant@,
            query@,
            now,
            receipt_id,
            success,
            match err {
                Some(s) => Some(s@),
                None => None,
            },
        ));
        let ghost e = entry;
        self.query_log.append(entry);
        assert(final(self).audit() == keep_newest(old(self).audit().push(e)));
    }

    /// Signs, stores and logs a receipt, unless its identifier or nonce is taken.
    fn issue(
        &mut self,
        draft: UnsignedReceipt,
        query: &String,
        success: bool,
        error: Option<String>,
        now: i64,
    ) -> (r: Result<AccessReceipt, IssueError>)
        requires
            old(self).wf(),
        ensures
            Self::issued(
                old(self),
                final(self),
                r,
                draft.fields(),
                query@,
                success,
                match error {
                    Some(s) => Some(s@),
                    None => None,
                },
                now,
            ),
    {
        let id = draft.id;
        if self.receipts.contains(id) || self.receipts.nonce_in_use(draft.nonce) {
            return Err(IssueError::IdentifierInUse);
        }
        let tenant = draft.tenant.clone();
        let receipt = AccessReceipt::seal(draft, &self.signer);
        let copy = receipt.duplicate();
        let ghost pre = *old(self);
        let stored = self.receipts.put(receipt);
        assert(stored);
        assert forall|i: u128| #[trigger]
            self.receipts@.contains_key(i) implies self.receipts@[i].sealed_by(self.signer.secret_bytes()) by {
            if i != id {
                assert(pre.receipts@.contains_key(i));
            }
        }
        self.log_query(&tenant, query, id, success, error, now);
        Ok(copy)
    }

    /// Issues the receipt for a successful query, with the given identifier,
    /// nonce and issuance time; it expires `SUCCESS_TTL_SECONDS` later.
    pub fn generate_access_receipt_at(
        &mut self,
        req: &QueryRequest,
        serialized_results: &str,
        id: u128,
        nonce: u128,
        now: i64,
    ) -> (r: Result<AccessReceipt, IssueError>)
        requires
            old(self).wf(),
            now <= i64::MAX - SUCCESS_TTL_SECONDS,
        ensures
            Self::issued(
                old(self),
                final(self),
                r,
                success_fields(old(self).directory(), *req, serialized_results.spec_bytes(), id, nonce, now),
                req.query@,
                true,
                None,
                now,
            ),
    {
        let draft = UnsignedReceipt {
            id,
            tenant: req.tenant.clone(),
            subject: "data_retrieval".to_owned(),
            shard: self.get_shard_for_tenant(&req.tenant),
            query_hash: self.hash_query(req.query.as_str()),
            result_hash: self.hash_results(serialized_results),
            nonce,
            expires_at: now + SUCCESS_TTL_SECONDS,
        };
        self.issue(draft, &req.query, true, None, now)
    }

    /// Issues the receipt for a failed query, with the given identifier, nonce
    /// and issuance time; it expires `FAILURE_TTL_SECONDS` later and its empty
    /// result hash marks the failure.
    pub fn generate_error_receipt_at(
        &mut self,
        req: &QueryRequest,
        error: &str,
        id: u128,
        nonce: u128,
        now: i64,
    ) -> (r: Result<AccessReceipt, IssueError>)
        requires
            old(self).wf(),
            now <= i64::MAX - FAILURE_TTL_SECONDS,
        ensures
            Self::issued(
                old(self),
                final(self),
                r,
                failure_fields(old(self).directory(), *req, id, nonce, now),
                req.query@,
                false,
                Some(error@),
                now,
            ),
    {
        let draft = UnsignedReceipt {
            id,
            tenant: req.tenant.clone(),
            subject: "error".to_owned(),
            shard: self.get_shard_for_tenant(&req.tenant),
            query_hash: self.hash_query(req.query.as_str()),
            result_hash: String::new(),
            nonce,
            expires_at: now + FAILURE_TTL_SECONDS,
        };
        self.issue(draft, &req.query, false, Some(error.to_owned()), now)
    }

    /// Issues the receipt for a successful query with a fresh random
    /// identifier and nonce, at the current time.
    pub fn generate_access_receipt(&mut self, req: &QueryRequest, serialized_results: &str) -> (r:
        Result<AccessReceipt, IssueError>)
        requires
            old(self).wf(),
        ensures
            exists|id: u128, nonce: u128, now: i64|
                now <= i64::MAX - SUCCESS_TTL_SECONDS && Self::issued(
                    old(self),
                    final(self),
                    r,
                    success_fields(old(self).directory(), *req, serialized_results.spec_bytes(), id, nonce, now),
                    req.query@,
                    true,
                    None,
                    now,
                ) && (r is Ok ==> r->Ok_0.fields().expires_at == now + SUCCESS_TTL_SECONDS),
    {
        let id = random_uuid();
        let nonce = random_uuid();
        let now = unix_now();
        self.generate_access_receipt_at(req, serialized_results, id, nonce, now)
    }

    /// Issues the receipt for a failed query with a fresh random identifier and
    /// nonce, at the current time.
    pub fn generate_error_receipt(&mut self, req: &QueryRequest, error: &str) -> (r: Result<
        AccessReceipt,
        IssueError,
    >)
        requires
            old(self).wf(),
        ensures
            exists|id: u128, nonce: u128, now: i64|
                now <= i64::MAX - SUCCESS_TTL_SECONDS && Self::issued(
                    old(self),
                    final(self),
                    r,
                    failure_fields(old(self).directory(), *req, id, nonce, now),
                    req.query@,
                    false,
                    Some(error@),
                    now,
                ) && (r is Ok ==> r->Ok_0.fields().expires_at == now + FAILURE_TTL_SECONDS
                    && r->Ok_0.fields().expires_at != now + SUCCESS_TTL_SECONDS),
    {
        let id = random_uuid();
        let nonce = random_uuid();
        let now = unix_now();
        self.generate_error_receipt_at(req, error, id, nonce, now)
    }

    /// Verifies the receipt `id` at time `now`, consuming its nonce when it
    /// passes. A second verification of the same receipt is a replay.
    pub fn verify_receipt_at(&mut self, id: u128, now: i64) -> (r: Result<AccessReceipt, VerifyError>)
        requires
            old(self).wf(),
        ensures
            Self::verified(old(self), final(self), r, id, now),
    {
        let receipt = match self.receipts.get(id) {
            None => return Err(VerifyError::ReceiptNotFound),
            Some(rc) => rc.duplicate(),
        };
        if receipt.expires_at() < now {
            return Err(VerifyError::ReceiptExpired);
        }
        proof {
            self.receipts.lemma_stored_nonce(id);
        }
        match self.nonces.try_consume(receipt.nonce(), now) {
            ConsumeOutcome::AlreadyConsumed => {
                return Err(VerifyError::ReceiptReplay);
            },
            ConsumeOutcome::Consumed => {},
        }
        let public = self.signer.public_key();
        assert(receipt.sealed_by(self.signer.secret_bytes()));
        if !receipt.check_signature(public.as_slice()) {
            return Err(VerifyError::SignatureInvalid);
        }
        Ok(receipt)
    }

    /// Verifies the receipt `id` at the current time.
    pub fn verify_receipt(&mut self, id: u128) -> (r: Result<AccessReceipt, VerifyError>)
        requires
            old(self).wf(),
        ensures
            exists|now: i64| Self::verified(old(self), final(self), r, id, now),
    {
        let now = unix_now();
        self.verify_receipt_at(id, now)
    }

    /// Looks up the receipt `id` and checks its signature, without consuming
    /// anything.
    pub fn verify_receipt_signature(&self, id: u128) -> (r: Result<AccessReceipt, VerifyError>)
        requires
            self.wf(),
        ensures
            !self.receipts().contains_key(id) ==> r == Err::<AccessReceipt, VerifyError>(
                VerifyError::ReceiptNotFound,
            ),
            self.receipts().contains_key(id) ==> r is Ok && r->Ok_0.same_content(&self.receipts()[id]),
    {
        let receipt = match self.receipts.get(id) {
            None => return Err(VerifyError::ReceiptNotFound),
            Some(rc) => rc.duplicate(),
        };
        let public = self.signer.public_key();
        assert(receipt.sealed_by(self.signer.secret_bytes()));
        if !receipt.check_signature(public.as_slice()) {
            return Err(VerifyError::SignatureInvalid);
        }
        Ok(receipt)
    }

    /// Totals of the audit log.
    pub fn get_statistics(&self) -> (r: Statistics)
        ensures
            r.total_queries == self.audit().len(),
            r.successful_queries == count_successes(self.audit()),
            r.failed_queries == self.audit().len() - count_successes(self.audit()),
    {
        self.query_log.statistics()
    }
}

} // verus!
