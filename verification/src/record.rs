//! The record that one run writes: whose balance, how much, in which
//! currency, and when it was read.

use vstd::prelude::*;

verus! {

/// A record as a value of specifications.
pub struct RecordView {
    pub local_account_number: Seq<char>,
    pub amount: Seq<char>,
    pub currency: Seq<char>,
    pub timestamp: int,
}

impl RecordView {
    /// Nothing is missing: the account number, the amount and the currency
    /// each hold at least one character.
    pub open spec fn is_complete(self) -> bool {
        missing_field(self.local_account_number, self.amount, self.currency) is None
    }
}

/// The field that keeps a record from being made.
#[derive(Debug, Clone, Copy, PartialEq, Eq, Structural)]
pub enum RecordError {
    /// The account number is empty.
    AccountNumberMissing,
    /// The amount is empty.
    AmountMissing,
    /// The currency is empty.
    CurrencyMissing,
}

impl RecordError {
    /// What the error says to a reader.
    pub open spec fn message_text(self) -> Seq<char> {
        match self {
            RecordError::AccountNumberMissing => "Account number is empty"@,
            RecordError::AmountMissing => "Amount is empty"@,
            RecordError::CurrencyMissing => "Currency is empty"@,
        }
    }

    /// What the error says to a reader.
    pub fn message(self) -> (r: &'static str)
        ensures
            r@ == self.message_text(),
    {
        match self {
            RecordError::AccountNumberMissing => "Account number is empty",
            RecordError::AmountMissing => "Amount is empty",
            RecordError::CurrencyMissing => "Currency is empty",
        }
    }
}

/// The first of the three texts that is empty, if any is.
pub open spec fn missing_field(
    local_account_number: Seq<char>,
    amount: Seq<char>,
    currency: Seq<char>,
) -> Option<RecordError> {
    if local_account_number.len() == 0 {
        Some(RecordError::AccountNumberMissing)
    } else if amount.len() == 0 {
        Some(RecordError::AmountMissing)
    } else if currency.len() == 0 {
        Some(RecordError::CurrencyMissing)
    } else {
        None
    }
}

/// One balance, read at one moment. A record is complete from the moment it
/// exists: none of its texts is empty.
#[derive(Debug)]
pub struct BalanceRecord {
    local_account_number: String,
    amount: String,
    currency: String,
    timestamp: i64,
}

impl View for BalanceRecord {
    type V = RecordView;

    closed spec fn view(&self) -> RecordView {
        RecordView {
            local_account_number: self.local_account_number@,
            amount: self.amount@,
            currency: self.currency@,
            timestamp: self.timestamp as int,
        }
    }
}

impl Clone for BalanceRecord {
    fn clone(&self) -> (r: Self)
        ensures
            r@ == self@,
    {
        proof {
            use_type_invariant(self);
        }
        BalanceRecord {
            local_account_number: self.local_account_number.clone(),
            amount: self.amount.clone(),
            currency: self.currency.clone(),
            timestamp: self.timestamp,
        }
    }
}

/// Reads the clock with `chrono::Utc::now` and gives the moment in whole
/// seconds since the epoch, as `DateTime::timestamp` counts them. Nothing is
/// claimed of the number: it is whatever the clock of the machine says.
#[verifier::external_body]
fn unix_time_now() -> i64 {
    chrono::Utc::now().timestamp()
}

impl BalanceRecord {
    #[verifier::type_invariant]
    spec fn complete(self) -> bool {
        self@.is_complete()
    }

    /// Makes the record of a balance that was read at `timestamp`, in seconds
    /// since the epoch. No record is made of an empty account number, amount
    /// or currency: the first that is empty is reported.
    pub fn new(local_account_number: String, amount: String, currency: String, timestamp: i64) -> (r:
        Result<BalanceRecord, RecordError>)
        ensures
            match r {
                Ok(record) => {
                    &&& record@ == (RecordView {
                        local_account_number: local_account_number@,
                        amount: amount@,
                        currency: currency@,
                        timestamp: timestamp as int,
                    })
                    &&& record@.is_complete()
                },
                Err(e) => missing_field(local_account_number@, amount@, currency@) == Some(e),
            },
    {
        if local_account_number.as_str().is_empty() {
            Err(RecordError::AccountNumberMissing)
        } else if amount.as_str().is_empty() {
            Err(RecordError::AmountMissing)
        } else if currency.as_str().is_empty() {
            Err(RecordError::CurrencyMissing)
        } else {
            Ok(BalanceRecord { local_account_number, amount, currency, timestamp })
        }
    }

    /// Makes the record of a balance that was read just now: the moment is
    /// taken from the clock as the record is made.
    pub fn stamped_now(local_account_number: String, amount: String, currency: String) -> (r:
        Result<BalanceRecord, RecordError>)
        ensures
            match r {
                Ok(record) => {
                    &&& record@.local_account_number == local_account_number@
                    &&& record@.amount == amount@
                    &&& record@.currency == currency@
                    &&& record@.is_complete()
                },
                Err(e) => missing_field(local_account_number@, amount@, currency@) == Some(e),
            },
    {
        let now: i64 = unix_time_now();
        BalanceRecord::new(local_account_number, amount, currency, now)
    }

    /// The account that the balance belongs to.
    pub fn local_account_number(&self) -> (r: &str)
        ensures
            r@ == self@.local_account_number,
            r@.len() > 0,
    {
        proof {
            use_type_invariant(self);
        }
        self.local_account_number.as_str()
    }

    /// The amount, in machine notation.
    pub fn amount(&self) -> (r: &str)
        ensures
            r@ == self@.amount,
            r@.len() > 0,
    {
        proof {
            use_type_invariant(self);
        }
        self.amount.as_str()
    }

    /// The currency, as the portal wrote it.
    pub fn currency(&self) -> (r: &str)
        ensures
            r@ == self@.currency,
            r@.len() > 0,
    {
        proof {
            use_type_invariant(self);
        }
        self.currency.as_str()
    }

    /// The moment of the reading, in seconds since the epoch.
    pub fn timestamp(&self) -> (r: i64)
        ensures
            r == self@.timestamp,
    {
        self.timestamp
    }
}

} // verus!
