use vstd::prelude::*;
use vstd::string::StringExecFns;

verus! {

/// How one transfer of a batch ended.
#[derive(Debug, Clone)]
pub enum TransferOutcome {
    /// Mined; carries the transaction hash.
    Confirmed(String),
    /// Sent, but no receipt came back.
    NoReceipt,
    /// Sent, and then failed; carries the reason.
    Failed(String),
    /// Could not be sent; carries the reason.
    NotSent(String),
}

/// The record of one transfer of a batch.
#[derive(Debug, Clone)]
pub struct TransferResult {
    pub to_address: String,
    pub amount: String,
    pub success: bool,
    pub tx_hash: Option<String>,
    pub error: Option<String>,
}

/// The tally of a batch of transfers.
#[derive(Debug, Clone)]
pub struct TransferResponse {
    pub total: u32,
    pub success: u32,
    pub failed: u32,
    pub results: Vec<TransferResult>,
}

/// Whether `r` records a transfer to `to` of `amount` that ended in `outcome`.
pub open spec fn records(r: TransferResult, to: Seq<char>, amount: Seq<char>, outcome: TransferOutcome) -> bool {
    &&& r.to_address@ == to
    &&& r.amount@ == amount
    &&& match outcome {
        TransferOutcome::Confirmed(h) => r.success && r.error is None && (r.tx_hash matches Some(
            x,
        ) && x@ == h@),
        TransferOutcome::NoReceipt => !r.success && r.tx_hash is None && (r.error matches Some(e)
            && e@ == "Transaction receipt not found"@),
        TransferOutcome::Failed(m) => !r.success && r.tx_hash is None && (r.error matches Some(e)
            && e@ == "Transaction failed: "@ + m@),
        TransferOutcome::NotSent(m) => !r.success && r.tx_hash is None && (r.error matches Some(e)
            && e@ == "Failed to send transaction: "@ + m@),
    }
}

/// How many of `results` record a successful transfer.
pub open spec fn successes(results: Seq<TransferResult>) -> int
    decreases results.len(),
{
    if results.len() == 0 {
        0
    } else {
        successes(results.drop_last()) + if results.last().success {
            1int
        } else {
            0int
        }
    }
}

impl TransferResponse {
    /// The counts agree with the records: every record is counted once, as
    /// a success or a failure, and no more are recorded than the batch holds.
    pub open spec fn well_formed(&self) -> bool {
        &&& self.success + self.failed == self.results@.len()
        &&& self.results@.len() <= self.total
        &&& self.success == successes(self.results@)
    }

    /// The tally of a batch of `total` transfers before any is made.
    pub fn new(total: u32) -> (r: TransferResponse)
        ensures
            r.well_formed(),
            r.total == total,
            r.success == 0,
            r.failed == 0,
            r.results@.len() == 0,
    {
        let r = TransferResponse { total, success: 0, failed: 0, results: Vec::new() };
        r
    }

    /// Records how the next transfer of the batch ended.
    pub fn record(&mut self, to_address: String, amount: String, outcome: TransferOutcome)
        requires
            old(self).well_formed(),
            old(self).results@.len() < old(self).total,
        ensures
            final(self).well_formed(),
            final(self).total == old(self).total,
            final(self).results@.len() == old(self).results@.len() + 1,
            final(self).results@.drop_last() == old(self).results@,
            records(final(self).results@.last(), to_address@, amount@, outcome),
            final(self).success == old(self).success + (if outcome is Confirmed { 1int } else { 0int }),
            final(self).failed == old(self).failed + (if outcome is Confirmed { 0int } else { 1int }),
    {
        let ghost before = self.results@;
        let result = match outcome {
            TransferOutcome::Confirmed(h) => TransferResult {
                to_address,
                amount,
                success: true,
                tx_hash: Some(h),
                error: None,
            },
            TransferOutcome::NoReceipt => TransferResult {
                to_address,
                amount,
                success: false,
                tx_hash: None,
                error: Some("Transaction receipt not found".to_owned()),
            },
            TransferOutcome::Failed(m) => TransferResult {
                to_address,
                amount,
                success: false,
                tx_hash: None,
                error: Some("Transaction failed: ".to_owned().concat(m.as_str())),
            },
            TransferOutcome::NotSent(m) => TransferResult {
                to_address,
                amount,
                success: false,
                tx_hash: None,
                error: Some("Failed to send transaction: ".to_owned().concat(m.as_str())),
            },
        };
        if result.success {
            self.success = self.success + 1;
        } else {
            self.failed = self.failed + 1;
        }
        self.results.push(result);
        proof {
            assert(self.results@.drop_last() =~= before);
        }
    }
}

} // verus!
