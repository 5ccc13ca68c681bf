use wavefunction::{AccountId, Config, Error, Event, Origin, Pallet, RecordId, WaveFunction};

fn pallet_with(max_bytes: u32) -> Pallet {
    Pallet::new(Config { max_bytes })
}

fn author_a() -> AccountId {
    AccountId::new([0xAA; 32])
}

fn author_b() -> AccountId {
    AccountId::new([0xBB; 32])
}

#[test]
fn submit_within_bound_stores_record() {
    let mut pallet = pallet_with(1024);
    let origin = Origin::Signed(author_a());
    let payload = vec![0u8; 500];

    let id = pallet.submit(&origin, payload.clone()).expect("within bound");

    let stored = pallet.wave_functions(&id).expect("stored");
    assert_eq!(
        stored,
        &WaveFunction { function: payload.clone(), author: author_a() }
    );
    assert_eq!(pallet.record_count(), 1);
    assert_eq!(
        pallet.events(),
        &vec![Event::WaveFunctionAdded(payload, author_a(), id)]
    );
}

#[test]
fn submit_over_bound_rejected() {
    let mut pallet = pallet_with(1024);
    let origin = Origin::Signed(author_a());

    let r = pallet.submit(&origin, vec![0u8; 1025]);

    assert_eq!(r, Err(Error::PayloadTooLarge));
    assert_eq!(pallet.record_count(), 0);
    assert_eq!(pallet.events().len(), 0);
}

#[test]
fn submit_at_exact_bound_succeeds() {
    let mut pallet = pallet_with(8);
    let origin = Origin::Signed(author_a());

    assert!(pallet.submit(&origin, vec![1u8; 8]).is_ok());
    assert_eq!(pallet.record_count(), 1);
}

#[test]
fn empty_payload_succeeds_even_at_zero_bound() {
    let mut pallet = pallet_with(0);
    let origin = Origin::Signed(author_a());

    assert!(pallet.submit(&origin, Vec::new()).is_ok());
    assert_eq!(pallet.submit(&origin, vec![0u8]), Err(Error::PayloadTooLarge));
    assert_eq!(pallet.record_count(), 1);
}

#[test]
fn resubmission_yields_same_id_and_overwrites() {
    let mut pallet = pallet_with(1024);
    let origin = Origin::Signed(author_a());
    let payload = vec![3u8, 1, 4, 1, 5];

    let id1 = pallet.submit(&origin, payload.clone()).expect("first");
    let id2 = pallet.submit(&origin, payload.clone()).expect("second");

    assert_eq!(id1, id2);
    assert_eq!(pallet.record_count(), 1);
    // The overwrite still emits a fresh event.
    assert_eq!(pallet.events().len(), 2);
    assert_eq!(
        pallet.events(),
        &vec![
            Event::WaveFunctionAdded(payload.clone(), author_a(), id1),
            Event::WaveFunctionAdded(payload, author_a(), id2),
        ]
    );
}

#[test]
fn different_authors_get_different_ids() {
    let mut pallet = pallet_with(1024);
    let payload = vec![9u8; 16];

    let id_a = pallet
        .submit(&Origin::Signed(author_a()), payload.clone())
        .expect("author a");
    let id_b = pallet
        .submit(&Origin::Signed(author_b()), payload)
        .expect("author b");

    assert_ne!(id_a, id_b);
    assert_eq!(pallet.record_count(), 2);
}

#[test]
fn different_payloads_get_different_ids() {
    let mut pallet = pallet_with(1024);
    let origin = Origin::Signed(author_a());

    let id1 = pallet.submit(&origin, vec![1u8]).expect("first");
    let id2 = pallet.submit(&origin, vec![2u8]).expect("second");

    assert_ne!(id1, id2);
}

#[test]
fn unsigned_origin_rejected_regardless_of_size() {
    let mut pallet = pallet_with(4);

    // Small enough to pass the size check: still refused first.
    assert_eq!(
        pallet.submit(&Origin::Unsigned, vec![0u8; 2]),
        Err(Error::Unauthenticated)
    );
    // Oversized as well: the authentication gate comes before the size check.
    assert_eq!(
        pallet.submit(&Origin::Unsigned, vec![0u8; 100]),
        Err(Error::Unauthenticated)
    );
    assert_eq!(pallet.record_count(), 0);
    assert_eq!(pallet.events().len(), 0);
}

#[test]
fn failed_submission_leaves_state_untouched() {
    let mut pallet = pallet_with(16);
    let origin = Origin::Signed(author_a());
    let payload = vec![5u8; 10];
    let id = pallet.submit(&origin, payload.clone()).expect("setup");

    assert_eq!(pallet.submit(&origin, vec![0u8; 17]), Err(Error::PayloadTooLarge));
    assert_eq!(pallet.submit(&Origin::Unsigned, vec![0u8; 3]), Err(Error::Unauthenticated));

    assert_eq!(pallet.record_count(), 1);
    assert_eq!(pallet.events().len(), 1);
    assert_eq!(
        pallet.wave_functions(&id),
        Some(&WaveFunction { function: payload, author: author_a() })
    );
}

#[test]
fn scenario_two_authors_and_an_oversized_payload() {
    let mut pallet = pallet_with(1024);
    let author_one = author_a();
    let author_two = author_b();
    let payload = vec![0u8; 500];

    let id1 = pallet
        .submit(&Origin::Signed(author_one), payload.clone())
        .expect("first submission");
    assert_eq!(
        pallet.wave_functions(&id1),
        Some(&WaveFunction { function: payload.clone(), author: author_one })
    );
    assert_eq!(
        pallet.events(),
        &vec![Event::WaveFunctionAdded(payload.clone(), author_one, id1)]
    );

    assert_eq!(
        pallet.submit(&Origin::Signed(author_one), vec![0u8; 2000]),
        Err(Error::PayloadTooLarge)
    );
    assert_eq!(pallet.record_count(), 1);

    let id2 = pallet
        .submit(&Origin::Signed(author_two), payload)
        .expect("second author");
    assert_ne!(id2, id1);
    assert_eq!(pallet.record_count(), 2);
}

#[test]
fn max_bytes_reports_configuration() {
    let pallet = pallet_with(77);
    assert_eq!(pallet.max_bytes(), 77);
}

#[test]
fn lookup_of_unknown_id_is_none() {
    let pallet = pallet_with(1024);
    assert_eq!(pallet.wave_functions(&RecordId::new([0u8; 32])), None);
}
