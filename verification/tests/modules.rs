use atlasserver::ads::callback_reply;
use atlasserver::error::Error;
use atlasserver::iap::record_purchase;
use atlasserver::iap::IapEventHandler;
use atlasserver::iap::InMemoryReceiptDB;
use atlasserver::iap::Platform;
use atlasserver::iap::Receipt;
use atlasserver::push::InMemoryFcmTokenDB;
use atlasserver::push::PushNotificationResource;
use atlasserver::status::status_reply;

#[test]
fn test_token_storage() {
    let mut resource =
        PushNotificationResource::new(InMemoryFcmTokenDB::default(), String::default());

    resource.set("uid", "howdy").unwrap();

    assert_eq!(
        resource.get_token("uid").unwrap().token,
        "howdy".to_string()
    );
}

#[test]
fn test_token_replaced() {
    let mut resource =
        PushNotificationResource::new(InMemoryFcmTokenDB::new(), "key".to_string());
    resource.set("uid", "first").unwrap();
    let response = resource.set("uid", "second").unwrap();
    assert!(response.success);
    assert_eq!(resource.get_token("uid").unwrap().token, "second");
    assert!(resource.get_token("other").is_none());
}

fn receipt(transaction_id: &str, is_subscription: bool) -> Receipt {
    Receipt::new(
        "uid".to_string(),
        "foo".to_string(),
        is_subscription,
        "prod".to_string(),
        1_000,
        transaction_id.to_string(),
        Platform::AppleAppStore,
    )
}

struct CountingHandler {
    calls: std::cell::Cell<u32>,
    fail: bool,
}

impl IapEventHandler for CountingHandler {
    fn on_valid_receipt(&self, _r: &Receipt) -> Result<(), Error> {
        self.calls.set(self.calls.get() + 1);
        if self.fail {
            Err(Error::NotImplemented)
        } else {
            Ok(())
        }
    }
}

#[test]
fn test_consumable_recorded_once() {
    // A valid consumable is recorded; replaying the same transaction is
    // answered invalid and nothing changes.
    let mut receipts = InMemoryReceiptDB::new();
    let handler: Option<CountingHandler> = None;

    let first = record_purchase(&mut receipts, &handler, receipt("bar", false), true).unwrap();
    assert!(first.valid);
    assert!(receipts
        .get_receipt("bar", Platform::AppleAppStore)
        .is_some());

    let replay = record_purchase(&mut receipts, &handler, receipt("bar", false), true).unwrap();
    assert!(!replay.valid);
}

#[test]
fn test_subscription_revalidates() {
    // A subscription receipt may be validated repeatedly.
    let mut receipts = InMemoryReceiptDB::new();
    let handler: Option<CountingHandler> = None;

    assert!(record_purchase(&mut receipts, &handler, receipt("bar", true), true)
        .unwrap()
        .valid);
    assert!(record_purchase(&mut receipts, &handler, receipt("bar", true), true)
        .unwrap()
        .valid);
}

#[test]
fn test_invalid_verdict_records_nothing() {
    let mut receipts = InMemoryReceiptDB::new();
    let handler: Option<CountingHandler> = None;

    let r = record_purchase(&mut receipts, &handler, receipt("bar", false), false).unwrap();
    assert!(!r.valid);
    assert!(receipts
        .get_receipt("bar", Platform::AppleAppStore)
        .is_none());
}

#[test]
fn test_handler_called_before_save() {
    let mut receipts = InMemoryReceiptDB::new();

    let ok_handler = Some(CountingHandler {
        calls: std::cell::Cell::new(0),
        fail: false,
    });
    let r = record_purchase(&mut receipts, &ok_handler, receipt("t1", false), true).unwrap();
    assert!(r.valid);
    assert_eq!(ok_handler.as_ref().unwrap().calls.get(), 1);

    // A failing handler fails the purchase and nothing is recorded.
    let failing = Some(CountingHandler {
        calls: std::cell::Cell::new(0),
        fail: true,
    });
    let r = record_purchase(&mut receipts, &failing, receipt("t2", false), true);
    assert!(matches!(r, Err(Error::EventFailed)));
    assert!(receipts
        .get_receipt("t2", Platform::AppleAppStore)
        .is_none());
}

#[test]
fn test_callback_reply_format() {
    assert_eq!(callback_reply(Some("rewarded".to_string())), "rewarded:OK");
    assert_eq!(callback_reply(None), ":OK");
}

#[test]
fn test_status_reply_code() {
    assert_eq!(status_reply(), 200);
}
