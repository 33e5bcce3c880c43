use verifresh::error::ErrorCode;
use verifresh::identity::Identity;
use verifresh::ledger::{add_log, create_product, AddLog, CreateProduct, Ledger};
use verifresh::product::Product;

fn identity(byte: u8) -> Identity {
    Identity::from_bytes(vec![byte; 32]).unwrap()
}

#[test]
fn create_product_then_lookup_returns_exact_fields() {
    let mut ledger = Ledger::new();
    let ctx = CreateProduct { payer: identity(1) };
    let r = create_product(
        &mut ledger,
        &ctx,
        7,
        "Apples".to_string(),
        "GreenAcres".to_string(),
        100,
    );
    assert_eq!(r, Ok(()));
    let p = ledger.get_product(7).unwrap();
    assert_eq!(p.id(), 7);
    assert_eq!(p.name().as_str(), "Apples");
    assert_eq!(p.farm_name().as_str(), "GreenAcres");
    assert_eq!(p.harvest_timestamp(), 100);
    assert_eq!(p.authority().as_bytes(), &vec![1u8; 32]);
    assert_eq!(p.history_len(), 0);
    assert!(p.history().is_empty());
}

#[test]
fn create_twice_fails_already_exists() {
    let mut ledger = Ledger::new();
    let ctx = CreateProduct { payer: identity(1) };
    let first = create_product(
        &mut ledger,
        &ctx,
        7,
        "Apples".to_string(),
        "GreenAcres".to_string(),
        100,
    );
    assert_eq!(first, Ok(()));
    let other_ctx = CreateProduct { payer: identity(9) };
    let second = create_product(
        &mut ledger,
        &other_ctx,
        7,
        "Pears".to_string(),
        "BlueHills".to_string(),
        200,
    );
    assert_eq!(second, Err(ErrorCode::AlreadyExists));
    let p = ledger.get_product(7).unwrap();
    assert_eq!(p.name().as_str(), "Apples");
    assert_eq!(p.farm_name().as_str(), "GreenAcres");
    assert_eq!(p.harvest_timestamp(), 100);
    assert_eq!(p.authority().as_bytes(), &vec![1u8; 32]);
}

#[test]
fn create_with_oversized_string_fails_invalid_input() {
    let mut ledger = Ledger::new();
    let ctx = CreateProduct { payer: identity(1) };
    let long = "x".repeat(33);
    let r = create_product(&mut ledger, &ctx, 7, long, "GreenAcres".to_string(), 100);
    assert_eq!(r, Err(ErrorCode::InvalidInput));
    assert!(!ledger.contains(7));

    let at_bound = "y".repeat(32);
    let r = create_product(&mut ledger, &ctx, 7, at_bound.clone(), "GreenAcres".to_string(), 100);
    assert_eq!(r, Ok(()));
    assert_eq!(ledger.get_product(7).unwrap().name(), &at_bound);
}

#[test]
fn append_by_wrong_identity_fails_unauthorized() {
    let mut product = Product::create(
        1,
        "Apples".to_string(),
        "GreenAcres".to_string(),
        identity(1),
        100,
    )
    .unwrap();
    let intruder = AddLog { authority: identity(2) };
    let r = add_log(
        &mut product,
        &intruder,
        "Harvested".to_string(),
        "FieldA".to_string(),
        110,
    );
    assert_eq!(r, Err(ErrorCode::Unauthorized));
    assert_eq!(product.history_len(), 0);
}

#[test]
fn appends_keep_order_and_timestamps() {
    let mut ledger = Ledger::new();
    let ctx = CreateProduct { payer: identity(1) };
    create_product(
        &mut ledger,
        &ctx,
        7,
        "Apples".to_string(),
        "GreenAcres".to_string(),
        100,
    )
    .unwrap();
    let author = AddLog { authority: identity(1) };
    for i in 0..10u64 {
        let r = ledger.append_log(
            7,
            &author,
            format!("status{}", i),
            format!("location{}", i),
            100 + 10 * i as i64,
        );
        assert_eq!(r, Ok(()));
    }
    let p = ledger.get_product(7).unwrap();
    assert_eq!(p.history_len(), 10);
    let history = p.history();
    for i in 0..10usize {
        assert_eq!(history[i].status(), &format!("status{}", i));
        assert_eq!(history[i].location(), &format!("location{}", i));
        assert_eq!(history[i].timestamp(), 100 + 10 * i as i64);
    }
    for i in 1..10usize {
        assert!(history[i - 1].timestamp() <= history[i].timestamp());
    }
}

#[test]
fn eleventh_append_fails_capacity_exceeded() {
    let mut product = Product::create(
        1,
        "Apples".to_string(),
        "GreenAcres".to_string(),
        identity(1),
        100,
    )
    .unwrap();
    let author = identity(1);
    for i in 0..10u64 {
        let r = product.add_log(
            format!("status{}", i),
            format!("location{}", i),
            &author,
            100 + i as i64,
        );
        assert_eq!(r, Ok(()));
    }
    assert_eq!(product.history_len(), 10);
    let r = product.add_log("one more".to_string(), "anywhere".to_string(), &author, 300);
    assert_eq!(r, Err(ErrorCode::CapacityExceeded));
    assert_eq!(product.history_len(), 10);
    assert_eq!(product.history()[9].status().as_str(), "status9");
}

#[test]
fn append_with_oversized_string_fails_invalid_input() {
    let mut product = Product::create(
        1,
        "Apples".to_string(),
        "GreenAcres".to_string(),
        identity(1),
        100,
    )
    .unwrap();
    let author = identity(1);
    let r = product.add_log("s".repeat(33), "FieldA".to_string(), &author, 110);
    assert_eq!(r, Err(ErrorCode::InvalidInput));
    let r = product.add_log("Harvested".to_string(), "l".repeat(33), &author, 110);
    assert_eq!(r, Err(ErrorCode::InvalidInput));
    assert_eq!(product.history_len(), 0);
}

#[test]
fn full_scenario_create_append_reject() {
    let x = identity(1);
    let y = identity(2);
    let t0: i64 = 1000;
    let t1: i64 = 1010;

    let mut ledger = Ledger::new();
    let create_ctx = CreateProduct { payer: identity(1) };
    let r = create_product(
        &mut ledger,
        &create_ctx,
        1,
        "Apples".to_string(),
        "GreenAcres".to_string(),
        t0,
    );
    assert_eq!(r, Ok(()));
    {
        let p = ledger.get_product(1).unwrap();
        assert_eq!(p.history_len(), 0);
        assert!(p.authority().equals(&x));
        assert_eq!(p.harvest_timestamp(), t0);
    }

    let author_ctx = AddLog { authority: identity(1) };
    let r = ledger.append_log(
        1,
        &author_ctx,
        "Harvested".to_string(),
        "FieldA".to_string(),
        t1,
    );
    assert_eq!(r, Ok(()));
    {
        let p = ledger.get_product(1).unwrap();
        assert_eq!(p.history_len(), 1);
        let entry = &p.history()[0];
        assert_eq!(entry.timestamp(), t1);
        assert_eq!(entry.status().as_str(), "Harvested");
        assert_eq!(entry.location().as_str(), "FieldA");
    }

    let intruder_ctx = AddLog { authority: identity(2) };
    let r = ledger.append_log(
        1,
        &intruder_ctx,
        "Shipped".to_string(),
        "Warehouse".to_string(),
        1020,
    );
    assert_eq!(r, Err(ErrorCode::Unauthorized));
    let p = ledger.get_product(1).unwrap();
    assert_eq!(p.history_len(), 1);
    assert!(!p.authority().equals(&y));
}

#[test]
fn identity_rejects_wrong_length() {
    assert!(Identity::from_bytes(vec![1; 31]).is_none());
    assert!(Identity::from_bytes(vec![1; 33]).is_none());
    assert!(Identity::from_bytes(Vec::new()).is_none());
    let id = Identity::from_bytes(vec![1; 32]).unwrap();
    assert_eq!(id.as_bytes(), &vec![1u8; 32]);
}

#[test]
fn identity_equality_is_bytewise() {
    let a = identity(1);
    let b = identity(1);
    let c = identity(2);
    assert!(a.equals(&b));
    assert!(!a.equals(&c));
    let mut bytes = vec![1u8; 32];
    bytes[31] = 0;
    let d = Identity::from_bytes(bytes).unwrap();
    assert!(!a.equals(&d));
    assert!(a.duplicate().equals(&a));
}

#[test]
fn authorization_guard_matches_authority() {
    let product = Product::create(
        1,
        "Apples".to_string(),
        "GreenAcres".to_string(),
        identity(1),
        100,
    )
    .unwrap();
    assert!(product.is_authorized(&identity(1)));
    assert!(!product.is_authorized(&identity(2)));
}
