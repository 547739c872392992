//! Creation validation, initialisation, authorization failures and the
//! error taxonomy: every rejection leaves the engine unchanged.

use fluxora_stream::auth::AuthContext;
use fluxora_stream::engine::FluxoraStream;
use fluxora_stream::stream::Address;
use fluxora_stream::stream::Error;

fn setup() -> (FluxoraStream, Address, Address, Address) {
    let token = Address::new(9);
    let admin = Address::new(1);
    let sender = Address::new(2);
    let recipient = Address::new(3);
    let mut eng = FluxoraStream::new();
    assert_eq!(eng.init(token, admin), Ok(()));
    (eng, admin, sender, recipient)
}

#[test]
fn init_runs_exactly_once() {
    let token = Address::new(9);
    let admin = Address::new(1);
    let mut eng = FluxoraStream::new();
    assert_eq!(eng.get_config(), Err(Error::InvalidParams));
    assert_eq!(eng.init(token, admin), Ok(()));
    let cfg = eng.get_config().unwrap();
    assert_eq!(cfg.token, token);
    assert_eq!(cfg.admin, admin);
    assert_eq!(eng.init(token, admin), Err(Error::InvalidParams));
}

#[test]
fn create_rejects_deposit_below_total_streamable() {
    let (mut eng, _admin, sender, recipient) = setup();
    let auth = AuthContext::single(sender);
    // 10 per second over 100 seconds needs a deposit of at least 1000
    assert_eq!(
        eng.create_stream(&auth, sender, recipient, 999, 10, 0, 0, 100),
        Err(Error::InvalidParams)
    );
    assert_eq!(eng.get_stream_state(0), Err(Error::StreamNotFound));
}

#[test]
fn create_rejects_malformed_parameters() {
    let (mut eng, _admin, sender, recipient) = setup();
    let auth = AuthContext::single(sender);
    // non-positive deposit
    assert_eq!(
        eng.create_stream(&auth, sender, recipient, 0, 10, 0, 0, 100),
        Err(Error::InvalidParams)
    );
    assert_eq!(
        eng.create_stream(&auth, sender, recipient, -5, 10, 0, 0, 100),
        Err(Error::InvalidParams)
    );
    // non-positive rate
    assert_eq!(
        eng.create_stream(&auth, sender, recipient, 1000, 0, 0, 0, 100),
        Err(Error::InvalidParams)
    );
    // sender and recipient must differ
    assert_eq!(
        eng.create_stream(&auth, sender, sender, 1000, 10, 0, 0, 100),
        Err(Error::InvalidParams)
    );
    // empty or inverted window
    assert_eq!(
        eng.create_stream(&auth, sender, recipient, 1000, 10, 100, 100, 100),
        Err(Error::InvalidParams)
    );
    // cliff outside the window
    assert_eq!(
        eng.create_stream(&auth, sender, recipient, 1000, 10, 10, 5, 100),
        Err(Error::InvalidParams)
    );
    assert_eq!(
        eng.create_stream(&auth, sender, recipient, 1000, 10, 0, 101, 100),
        Err(Error::InvalidParams)
    );
    // rate times duration overflows the checked multiplication
    assert_eq!(
        eng.create_stream(&auth, sender, recipient, i128::MAX, i128::MAX, 0, 0, 2),
        Err(Error::InvalidParams)
    );
    assert_eq!(eng.get_stream_state(0), Err(Error::StreamNotFound));
}

#[test]
fn create_requires_sender_authorization() {
    let (mut eng, _admin, sender, recipient) = setup();
    let nobody = AuthContext::empty();
    assert_eq!(
        eng.create_stream(&nobody, sender, recipient, 1000, 10, 0, 0, 100),
        Err(Error::NotAuthorized)
    );
    let wrong = AuthContext::single(recipient);
    assert_eq!(
        eng.create_stream(&wrong, sender, recipient, 1000, 10, 0, 0, 100),
        Err(Error::NotAuthorized)
    );
}

#[test]
fn create_rejects_before_initialisation() {
    let sender = Address::new(2);
    let recipient = Address::new(3);
    let mut eng = FluxoraStream::new();
    let auth = AuthContext::single(sender);
    assert_eq!(
        eng.create_stream(&auth, sender, recipient, 1000, 10, 0, 0, 100),
        Err(Error::InvalidParams)
    );
}

#[test]
fn recipient_may_not_pause_or_cancel() {
    let (mut eng, _admin, sender, recipient) = setup();
    let auth = AuthContext::single(sender);
    eng.create_stream(&auth, sender, recipient, 1000, 10, 0, 0, 100)
        .unwrap();
    let rauth = AuthContext::single(recipient);
    assert_eq!(eng.pause_stream(&rauth, 0), Err(Error::NotAuthorized));
    assert_eq!(eng.cancel_stream(&rauth, 0, 10), Err(Error::NotAuthorized));
}

#[test]
fn only_recipient_may_withdraw() {
    let (mut eng, _admin, sender, recipient) = setup();
    let auth = AuthContext::single(sender);
    eng.create_stream(&auth, sender, recipient, 1000, 10, 0, 0, 100)
        .unwrap();
    assert_eq!(eng.withdraw(&auth, 0, 50), Err(Error::NotAuthorized));
    assert_eq!(eng.get_stream_state(0).unwrap().withdrawn_amount, 0);
}

#[test]
fn unknown_stream_ids_are_reported() {
    let (mut eng, admin, sender, _recipient) = setup();
    let auth = AuthContext::single(sender);
    let admin_auth = AuthContext::single(admin);
    assert_eq!(eng.get_stream_state(7), Err(Error::StreamNotFound));
    assert_eq!(eng.calculate_accrued(7, 0), Err(Error::StreamNotFound));
    assert_eq!(eng.pause_stream(&auth, 7), Err(Error::StreamNotFound));
    assert_eq!(eng.resume_stream(&auth, 7), Err(Error::StreamNotFound));
    assert_eq!(eng.cancel_stream(&auth, 7, 0), Err(Error::StreamNotFound));
    assert_eq!(eng.withdraw(&auth, 7, 0), Err(Error::StreamNotFound));
    assert_eq!(
        eng.cancel_stream_as_admin(&admin_auth, 7, 0),
        Err(Error::StreamNotFound)
    );
}

#[test]
fn admin_cancel_rejects_before_initialisation() {
    let mut eng = FluxoraStream::new();
    let admin_auth = AuthContext::single(Address::new(1));
    assert_eq!(
        eng.cancel_stream_as_admin(&admin_auth, 0, 0),
        Err(Error::InvalidParams)
    );
}
