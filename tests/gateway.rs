use base64::Engine as _;
use ed25519_dalek::Keypair;
use retrieval_gateway::crypto::{verify_signature, Signer};
use retrieval_gateway::encoding::encode_receipt_fields;
use retrieval_gateway::ledger::{ConsumeOutcome, NonceLedger};
use retrieval_gateway::{
    AccessReceipt, GatewayConfig, IssueError, QueryRequest, RequestError, RetrievalGateway,
    UnsignedReceipt, VerifyError,
};

const NOW: i64 = 1_700_000_000;

fn gateway_with(shards: Vec<(String, String)>) -> RetrievalGateway {
    let config = GatewayConfig {
        host: "localhost".to_string(),
        port: 8080,
        signing_key: Keypair::generate(&mut rand::thread_rng()).secret.to_bytes().to_vec(),
        tenant_shards: shards,
        max_query_size: 1000,
        query_timeout_ms: 5000,
    };
    RetrievalGateway::new(config)
}

fn acme_gateway() -> RetrievalGateway {
    gateway_with(vec![
        ("acme".to_string(), "acme-shard-1".to_string()),
        ("globex".to_string(), "globex-shard-1".to_string()),
    ])
}

fn request(tenant: &str, query: &str, limit: Option<u32>) -> QueryRequest {
    QueryRequest {
        tenant: tenant.to_string(),
        query: query.to_string(),
        filters: None,
        limit,
        offset: None,
    }
}

#[test]
fn test_query_validation() {
    let config = GatewayConfig {
        host: "localhost".to_string(),
        port: 8080,
        signing_key: Keypair::generate(&mut rand::thread_rng()).secret.to_bytes().to_vec(),
        tenant_shards: Vec::new(),
        max_query_size: 1000,
        query_timeout_ms: 5000,
    };

    let gateway = RetrievalGateway::new(config);

    let valid_request = QueryRequest {
        tenant: "acme".to_string(),
        query: "SELECT * FROM employees".to_string(),
        filters: None,
        limit: Some(100),
        offset: Some(0),
    };

    assert!(gateway.validate_query_request(&valid_request).is_ok());

    let invalid_request = QueryRequest {
        tenant: "".to_string(),
        query: "SELECT * FROM employees".to_string(),
        filters: None,
        limit: None,
        offset: None,
    };

    assert!(gateway.validate_query_request(&invalid_request).is_err());
}

#[test]
fn test_query_hashing() {
    let config = GatewayConfig {
        host: "localhost".to_string(),
        port: 8080,
        signing_key: Keypair::generate(&mut rand::thread_rng()).secret.to_bytes().to_vec(),
        tenant_shards: Vec::new(),
        max_query_size: 1000,
        query_timeout_ms: 5000,
    };

    let gateway = RetrievalGateway::new(config);

    let query1 = "SELECT * FROM employees";
    let query2 = "SELECT * FROM employees";
    let query3 = "SELECT * FROM customers";

    let hash1 = gateway.hash_query(query1);
    let hash2 = gateway.hash_query(query2);
    let hash3 = gateway.hash_query(query3);

    assert_eq!(hash1, hash2);
    assert_ne!(hash1, hash3);
}

#[test]
fn query_hash_is_base64_sha256() {
    let gateway = acme_gateway();
    assert_eq!(gateway.hash_query(""), "47DEQpj8HBSa+/TImW+5JCeuQeRkm5NMpJWZG3hSuFU=");
    assert_eq!(gateway.hash_query("abc"), "ungWv48Bz+pBQUDeXa4iI7ADYaOWF3qctBD/YfIAFa0=");
    assert_eq!(gateway.hash_results("[]").len(), 44);
    assert_ne!(gateway.hash_results("[]"), "");
}

#[test]
fn validation_reports_each_error() {
    let gateway = acme_gateway();
    assert_eq!(
        gateway.validate_query_request(&request("", "SELECT 1", None)),
        Err(RequestError::TenantRequired)
    );
    assert_eq!(
        gateway.validate_query_request(&request("acme", "", None)),
        Err(RequestError::QueryRequired)
    );
    let long = "x".repeat(1001);
    assert_eq!(
        gateway.validate_query_request(&request("acme", &long, None)),
        Err(RequestError::QueryTooLong)
    );
    let exact = "x".repeat(1000);
    assert_eq!(gateway.validate_query_request(&request("acme", &exact, None)), Ok(()));
    assert_eq!(
        gateway.validate_query_request(&request("acme", "SELECT 1", Some(1001))),
        Err(RequestError::LimitTooHigh)
    );
    assert_eq!(gateway.validate_query_request(&request("acme", "SELECT 1", Some(1000))), Ok(()));
}

#[test]
fn isolation_checks_tenant_and_directory() {
    let gateway = acme_gateway();
    let acme = "acme".to_string();
    let globex = "globex".to_string();
    let initech = "initech".to_string();
    assert_eq!(gateway.check_tenant_isolation(&acme, &acme), Ok(()));
    assert_eq!(gateway.check_tenant_isolation(&globex, &acme), Err(RequestError::TenantMismatch));
    assert_eq!(gateway.check_tenant_isolation(&initech, &initech), Err(RequestError::TenantNotFound));
    assert_eq!(
        gateway.admit_query(&globex, &request("acme", "SELECT 1", None)),
        Err(RequestError::TenantMismatch)
    );
    assert_eq!(
        gateway.admit_query(&globex, &request("", "SELECT 1", None)),
        Err(RequestError::TenantRequired)
    );
    assert_eq!(RequestError::TenantMismatch.code(), "TENANT_ISOLATION_VIOLATION");
    assert_eq!(RequestError::QueryTooLong.code(), "INVALID_REQUEST");
}

#[test]
fn shard_lookup_defaults() {
    let gateway = acme_gateway();
    assert_eq!(gateway.get_shard_for_tenant(&"globex".to_string()), "globex-shard-1");
    assert_eq!(gateway.get_shard_for_tenant(&"initech".to_string()), "default");
}

#[test]
fn success_receipt_verifies_once_then_replays() {
    let mut gateway = acme_gateway();
    let req = request("acme", "SELECT * FROM employees", None);
    let receipt = gateway.generate_access_receipt_at(&req, "[]", 11, 22, NOW).unwrap();
    assert_eq!(receipt.tenant(), "acme");
    assert_eq!(receipt.subject(), "data_retrieval");
    assert_eq!(receipt.shard(), "acme-shard-1");
    assert_eq!(receipt.query_hash(), &gateway.hash_query("SELECT * FROM employees"));
    assert_eq!(receipt.result_hash(), &gateway.hash_results("[]"));
    assert_eq!(receipt.expires_at(), NOW + 86400);
    assert_eq!(receipt.signature().len(), 64);
    assert_eq!(receipt.signature_base64().len(), 88);
    assert_eq!(
        &base64::engine::general_purpose::STANDARD.decode(receipt.signature_base64()).unwrap(),
        receipt.signature()
    );

    let first = gateway.verify_receipt_at(11, NOW + 5).unwrap();
    assert_eq!(first.id(), 11);
    assert_eq!(first.nonce(), 22);
    assert!(gateway.is_nonce_used(22));
    assert_eq!(gateway.verify_receipt_at(11, NOW + 6).err(), Some(VerifyError::ReceiptReplay));
}

#[test]
fn random_receipts_verify_once() {
    let mut gateway = acme_gateway();
    let req = request("acme", "SELECT * FROM employees", None);
    let a = gateway.generate_access_receipt(&req, "[]").unwrap();
    let b = gateway.generate_access_receipt(&req, "[]").unwrap();
    assert_ne!(a.id(), b.id());
    assert_ne!(a.nonce(), b.nonce());
    assert!(gateway.verify_receipt(a.id()).is_ok());
    assert_eq!(gateway.verify_receipt(a.id()).err(), Some(VerifyError::ReceiptReplay));
    assert!(gateway.verify_receipt(b.id()).is_ok());
}

#[test]
fn failure_receipt_expires_after_one_hour() {
    let mut gateway = acme_gateway();
    let req = request("acme", "SELECT * FROM employees", None);
    let receipt = gateway.generate_error_receipt_at(&req, "timeout", 5, 6, NOW).unwrap();
    assert_eq!(receipt.expires_at(), NOW + 3600);
    assert_ne!(receipt.expires_at(), NOW + 86400);
    assert_eq!(receipt.subject(), "error");
    assert_eq!(receipt.result_hash(), "");
    let stats = gateway.get_statistics();
    assert_eq!(stats.total_queries, 1);
    assert_eq!(stats.successful_queries, 0);
    assert_eq!(stats.failed_queries, 1);
}

#[test]
fn expired_receipt_reports_expired() {
    let mut gateway = acme_gateway();
    let req = request("acme", "SELECT 1", None);
    gateway.generate_error_receipt_at(&req, "timeout", 5, 6, NOW).unwrap();
    assert_eq!(gateway.verify_receipt_at(5, NOW + 3601).err(), Some(VerifyError::ReceiptExpired));
    assert!(!gateway.is_nonce_used(6));
    assert!(gateway.verify_receipt_at(5, NOW + 3600).is_ok());
    assert_eq!(gateway.verify_receipt_at(5, NOW + 3601).err(), Some(VerifyError::ReceiptExpired));
}

#[test]
fn unknown_id_is_not_found() {
    let mut gateway = acme_gateway();
    assert_eq!(gateway.verify_receipt_at(999, NOW).err(), Some(VerifyError::ReceiptNotFound));
    assert_eq!(gateway.verify_receipt_signature(999).err(), Some(VerifyError::ReceiptNotFound));
    assert_eq!(VerifyError::ReceiptNotFound.code(), "RECEIPT_NOT_FOUND");
}

#[test]
fn reused_identifier_or_nonce_is_refused() {
    let mut gateway = acme_gateway();
    let req = request("acme", "SELECT 1", None);
    gateway.generate_access_receipt_at(&req, "[]", 1, 2, NOW).unwrap();
    assert_eq!(
        gateway.generate_access_receipt_at(&req, "[]", 1, 3, NOW).err(),
        Some(IssueError::IdentifierInUse)
    );
    assert_eq!(
        gateway.generate_error_receipt_at(&req, "timeout", 4, 2, NOW).err(),
        Some(IssueError::IdentifierInUse)
    );
    assert_eq!(gateway.get_statistics().total_queries, 1);
}

#[test]
fn signature_covers_every_field() {
    let mut gateway = acme_gateway();
    let req = request("acme", "SELECT * FROM employees", None);
    let receipt = gateway.generate_access_receipt_at(&req, "[]", 7, 8, NOW).unwrap();
    let public = gateway.public_key();
    assert!(receipt.check_signature(&public));
    assert!(gateway.verify_receipt_signature(7).is_ok());

    let parts = |tenant: &str, expires_at: i64| UnsignedReceipt {
        id: 7,
        tenant: tenant.to_string(),
        subject: receipt.subject().clone(),
        shard: receipt.shard().clone(),
        query_hash: receipt.query_hash().clone(),
        result_hash: receipt.result_hash().clone(),
        nonce: 8,
        expires_at,
    };
    let same = AccessReceipt::from_parts(parts("acme", NOW + 86400), receipt.signature().clone());
    assert!(same.check_signature(&public));
    let renamed = AccessReceipt::from_parts(parts("acmf", NOW + 86400), receipt.signature().clone());
    assert!(!renamed.check_signature(&public));
    let extended = AccessReceipt::from_parts(parts("acme", NOW + 86401), receipt.signature().clone());
    assert!(!extended.check_signature(&public));
    let mut flipped = receipt.signature().clone();
    flipped[0] ^= 1;
    let forged = AccessReceipt::from_parts(parts("acme", NOW + 86400), flipped);
    assert!(!forged.check_signature(&public));
}

#[test]
fn encoding_is_length_prefixed() {
    let a = encode_receipt_fields(1, "a:b", "c", "d", "e", "f", 2, 3);
    let b = encode_receipt_fields(1, "a", "b:c", "d", "e", "f", 2, 3);
    assert_ne!(a, b);
    assert_eq!(a.len(), 16 + (8 + 3) + 4 * (8 + 1) + 16 + 8);
    assert_eq!(&a[16..24], &[0, 0, 0, 0, 0, 0, 0, 3]);
    assert_eq!(&a[24..27], b"a:b");
    assert_eq!(a[15], 1);
    assert_eq!(a[a.len() - 1], 3);
}

#[test]
fn nonce_is_consumed_exactly_once() {
    let mut ledger = NonceLedger::new();
    assert_eq!(ledger.try_consume(42, NOW), ConsumeOutcome::Consumed);
    for i in 0..10 {
        assert_eq!(ledger.try_consume(42, NOW + i), ConsumeOutcome::AlreadyConsumed);
    }
    assert!(ledger.is_consumed(42));
    assert!(!ledger.is_consumed(43));
    assert_eq!(ledger.len(), 1);
}

#[test]
fn audit_log_keeps_newest_entries() {
    let mut log = retrieval_gateway::audit::AuditLog::new();
    for i in 0..10_005u128 {
        log.append(retrieval_gateway::QueryLogEntry {
            tenant: "acme".to_string(),
            query: "SELECT 1".to_string(),
            timestamp: NOW,
            receipt_id: i,
            success: i % 2 == 0,
            error: None,
        });
    }
    assert_eq!(log.len(), 10_000);
    let stats = log.statistics();
    assert_eq!(stats.total_queries, 10_000);
    assert_eq!(stats.successful_queries, 5_000);
    assert_eq!(stats.failed_queries, 5_000);
}

#[test]
fn signer_is_deterministic_and_verifiable() {
    let signer = Signer::from_secret(vec![7u8; 32]);
    let again = Signer::from_secret(vec![7u8; 32]);
    let public = signer.public_key();
    assert_eq!(public.len(), 32);
    assert_eq!(public, again.public_key());
    let sig = signer.sign(b"receipt");
    assert_eq!(sig.len(), 64);
    assert_eq!(sig, again.sign(b"receipt"));
    assert_ne!(sig, signer.sign(b"receipt!"));
    assert!(verify_signature(&public, b"receipt", &sig));
    assert!(!verify_signature(&public, b"receipt!", &sig));
    assert!(!verify_signature(&public, b"receipt", &sig[..63]));
}
