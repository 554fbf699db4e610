//! In-app-purchase receipts: the receipt store and the recording rules.
//!
//! The platform validators (the store round trips that decide whether a
//! receipt is genuine) are network calls performed by the surrounding
//! application; their verdict comes back here as a plain flag, and this
//! module decides what is recorded and what is answered.  A consumable
//! purchase is accepted at most once per transaction.

use vstd::prelude::*;

verus! {

use crate::error::Error;
use crate::table::Table;
use crate::table::TableKey;
use crate::table::lemma_lift_insert;
use crate::table::lift;
use crate::table::str_eq;

/// The purchase platforms supported.
#[derive(Clone, Copy, Debug, PartialEq, Eq, Structural)]
pub enum Platform {
    GooglePlay,
    AppleAppStore,
}

/// A validated receipt as the store keeps it.  The raw store receipt is
/// carried as an opaque string; the purchase instant is seconds on the
/// caller's clock.
pub struct Receipt {
    pub transaction_id: String,
    pub platform: Platform,
    pub user_id: String,
    pub is_subscription: bool,
    pub product_id: String,
    pub unity_receipt: String,
    pub date: u64,
}

/// The abstract value of a `Receipt`.
pub struct ReceiptView {
    pub transaction_id: Seq<char>,
    pub platform: Platform,
    pub user_id: Seq<char>,
    pub is_subscription: bool,
    pub product_id: Seq<char>,
    pub unity_receipt: Seq<char>,
    pub date: u64,
}

impl View for Receipt {
    type V = ReceiptView;

    open spec fn view(&self) -> ReceiptView {
        ReceiptView {
            transaction_id: self.transaction_id@,
            platform: self.platform,
            user_id: self.user_id@,
            is_subscription: self.is_subscription,
            product_id: self.product_id@,
            unity_receipt: self.unity_receipt@,
            date: self.date,
        }
    }
}

impl Clone for Receipt {
    fn clone(&self) -> (r: Self)
        ensures
            r@ == self@,
    {
        Receipt {
            transaction_id: self.transaction_id.clone(),
            platform: self.platform,
            user_id: self.user_id.clone(),
            is_subscription: self.is_subscription,
            product_id: self.product_id.clone(),
            unity_receipt: self.unity_receipt.clone(),
            date: self.date,
        }
    }
}

impl Receipt {
    /// A receipt record from the validated purchase's fields.
    pub fn new(
        user_id: String,
        unity_receipt: String,
        is_subscription: bool,
        product_id: String,
        now: u64,
        transaction_id: String,
        platform: Platform,
    ) -> (r: Self)
        ensures
            r == (Receipt {
                transaction_id,
                platform,
                user_id,
                is_subscription,
                product_id,
                unity_receipt,
                date: now,
            }),
    {
        Receipt {
            transaction_id,
            platform,
            user_id,
            is_subscription,
            product_id,
            unity_receipt,
            date: now,
        }
    }
}

/// The key a receipt is stored under: one record per transaction and
/// platform.
pub struct ReceiptKey {
    pub transaction_id: String,
    pub platform: Platform,
}

/// The abstract value of a `ReceiptKey`.
pub struct ReceiptKeyView {
    pub transaction_id: Seq<char>,
    pub platform: Platform,
}

impl View for ReceiptKey {
    type V = ReceiptKeyView;

    open spec fn view(&self) -> ReceiptKeyView {
        ReceiptKeyView { transaction_id: self.transaction_id@, platform: self.platform }
    }
}

impl TableKey for ReceiptKey {
    fn key_eq(&self, other: &Self) -> (r: bool)
        ensures
            r == (self@ == other@),
    {
        self.platform == other.platform && str_eq(
            self.transaction_id.as_str(),
            other.transaction_id.as_str(),
        )
    }
}

/// The key `r` is stored under.
pub open spec fn spec_receipt_key(r: ReceiptView) -> ReceiptKeyView {
    ReceiptKeyView { transaction_id: r.transaction_id, platform: r.platform }
}

/// The store interface for receipts, for the application's other
/// backing technologies; the verified in-memory store offers the same
/// operations under full contracts.
pub trait ReceiptDB {
    /// Persists a receipt under its transaction id and platform.
    fn save_receipt(&mut self, r: Receipt) -> Result<(), Error>;

    /// The receipt recorded for a transaction on a platform, if any.
    fn get_receipt(&self, transaction_id: &str, platform: Platform) -> Option<Receipt>;
}

/// In-memory receipt store.
pub struct InMemoryReceiptDB {
    db: Table<ReceiptKey, Receipt>,
}

impl View for InMemoryReceiptDB {
    type V = Map<ReceiptKeyView, ReceiptView>;

    closed spec fn view(&self) -> Map<ReceiptKeyView, ReceiptView> {
        lift(self.db@)
    }
}

impl InMemoryReceiptDB {
    pub closed spec fn wf(&self) -> bool {
        self.db.wf()
    }

    /// An empty store.
    pub fn new() -> (r: Self)
        ensures
            r.wf(),
            r@ == Map::<ReceiptKeyView, ReceiptView>::empty(),
    {
        let r = InMemoryReceiptDB { db: Table::new() };
        proof {
            assert(r@ =~= Map::<ReceiptKeyView, ReceiptView>::empty());
        }
        r
    }

    /// Persists `r` under its transaction id and platform.
    pub fn save_receipt(&mut self, r: Receipt) -> (res: Result<(), Error>)
        requires
            old(self).wf(),
        ensures
            final(self).wf(),
            final(self)@ == old(self)@.insert(spec_receipt_key(r@), r@),
            res is Ok,
    {
        proof {
            broadcast use lemma_lift_insert;

        }
        let key = ReceiptKey { transaction_id: r.transaction_id.clone(), platform: r.platform };
        self.db.insert(key, r);
        Ok(())
    }

    /// The receipt recorded for a transaction on a platform, if any.
    pub fn get_receipt(&self, transaction_id: &str, platform: Platform) -> (r: Option<Receipt>)
        requires
            self.wf(),
        ensures
            ({
                let k = ReceiptKeyView { transaction_id: transaction_id@, platform };
                match r {
                    Some(receipt) => self@.contains_key(k) && receipt@ == self@[k],
                    None => !self@.contains_key(k),
                }
            }),
    {
        let key = ReceiptKey { transaction_id: transaction_id.to_owned(), platform };
        match self.db.get(&key) {
            Some(receipt) => Some(receipt.clone()),
            None => None,
        }
    }
}

impl Default for InMemoryReceiptDB {
    /// An empty store.
    fn default() -> (r: Self)
        ensures
            r.wf(),
            r@ == Map::<ReceiptKeyView, ReceiptView>::empty(),
    {
        Self::new()
    }
}

/// Module marker for the in-app-purchase feature.
pub struct Iap;

/// Listener interface for accepted receipts, implemented by the host
/// application.  It is notified before the receipt is persisted; its
/// error fails the purchase without recording it.
pub trait IapEventHandler {
    fn on_valid_receipt(&self, r: &Receipt) -> Result<(), Error>;
}

/// The reply to a purchase-validation request.
#[derive(Clone, Copy, Debug, PartialEq, Eq, Structural)]
pub struct PurchaseResponse {
    pub valid: bool,
}

/// Records the verdict of a platform validator for `receipt`.
///
/// An invalid verdict answers invalid and records nothing.  A valid
/// consumable whose transaction was already recorded has been consumed
/// before: it is answered invalid and nothing changes.  Otherwise a
/// registered handler is notified — its error surfaces as `EventFailed`
/// with nothing recorded — and the receipt is persisted and answered
/// valid.
pub fn record_purchase<H: IapEventHandler>(
    receipts: &mut InMemoryReceiptDB,
    handler: &Option<H>,
    receipt: Receipt,
    valid: bool,
) -> (r: Result<PurchaseResponse, Error>)
    requires
        old(receipts).wf(),
    ensures
        final(receipts).wf(),
        !valid ==> r == Ok::<PurchaseResponse, Error>(PurchaseResponse { valid: false })
            && final(receipts)@ == old(receipts)@,
        valid && !receipt@.is_subscription && old(receipts)@.contains_key(
            spec_receipt_key(receipt@),
        ) ==> r == Ok::<PurchaseResponse, Error>(PurchaseResponse { valid: false })
            && final(receipts)@ == old(receipts)@,
        valid && (receipt@.is_subscription || !old(receipts)@.contains_key(
            spec_receipt_key(receipt@),
        )) ==> {
            &&& (r matches Ok(resp) ==> resp.valid && final(receipts)@ == old(receipts)@.insert(
                spec_receipt_key(receipt@),
                receipt@,
            ))
            &&& (r matches Err(e) ==> e == Error::EventFailed && final(receipts)@
                == old(receipts)@)
            &&& (handler is None ==> r is Ok)
        },
{
    if !valid {
        return Ok(PurchaseResponse { valid: false });
    }
    if !receipt.is_subscription && receipts.get_receipt(
        receipt.transaction_id.as_str(),
        receipt.platform,
    ).is_some() {
        return Ok(PurchaseResponse { valid: false });
    }
    if let Some(h) = handler {
        if h.on_valid_receipt(&receipt).is_err() {
            return Err(Error::EventFailed);
        }
    }
    let saved = receipts.save_receipt(receipt);
    proof {
        assert(saved is Ok);
    }
    Ok(PurchaseResponse { valid: true })
}

} // verus!
