use vstd::prelude::*;
use crate::address::Address;
use crate::error::{ApiError, STATUS_OK};
use crate::wei::{to_base_units, Wei, WEI_PER_ETHER};

verus! {

/// What `GET /` answers.
pub open spec fn root_text() -> Seq<char> {
    "Hello, World!"@
}

/// The fixed confirmation text of `GET /`, sent with status 200.
pub fn root() -> (r: &'static str)
    ensures
        r@ == root_text(),
{
    "Hello, World!"
}

/// The balance of one account: the raw amount, the whole tokens in it, and
/// the account it belongs to.
#[derive(Clone, Copy, Debug, PartialEq, Eq)]
pub struct Balance {
    /// Whole tokens: `wei` divided by 10^18, rounded down.
    pub balance: Wei,
    /// The amount in the smallest unit, as the node gave it.
    pub wei: Wei,
    pub address: Address,
}

impl Balance {
    pub open spec fn is_report_of(self, address: Address, wei: Wei) -> bool {
        &&& self.address == address
        &&& self.wei == wei
        &&& self.balance.value() == wei.value() / (WEI_PER_ETHER as nat)
    }

    /// The report for `address` holding `wei`.
    pub fn new(address: Address, wei: Wei) -> (r: Balance)
        ensures
            r.is_report_of(address, wei),
    {
        Balance { balance: to_base_units(wei), wei, address }
    }
}

/// The answer to a balance request, given the account and the result of
/// fetching its amount: the report, or the failure as it came.
pub fn report(address: Address, fetched: Result<Wei, ApiError>) -> (r: Result<Balance, ApiError>)
    ensures
        fetched is Ok <==> r is Ok,
        r matches Ok(b) ==> b.is_report_of(address, fetched->Ok_0),
        r matches Err(e) ==> fetched == Err::<Wei, ApiError>(e),
{
    match fetched {
        Ok(wei) => Ok(Balance::new(address, wei)),
        Err(e) => Err(e),
    }
}

/// The HTTP status of an answer to a balance request.
pub fn reply_status(r: &Result<Balance, ApiError>) -> (s: u16)
    ensures
        r is Ok ==> s == STATUS_OK,
        r matches Err(e) ==> s == e.spec_status(),
{
    match r {
        Ok(_) => STATUS_OK,
        Err(e) => e.status(),
    }
}

/// Two requests do not reach into each other: whatever else is fetched at the
/// same time, each report names its own account and carries that account's
/// amount.
pub proof fn lemma_reports_independent(a1: Address, w1: Wei, r1: Balance, a2: Address, w2: Wei, r2: Balance)
    requires
        r1.is_report_of(a1, w1),
        r2.is_report_of(a2, w2),
    ensures
        r1.address == a1 && r1.wei == w1,
        r2.address == a2 && r2.wei == w2,
        a1 != a2 ==> r1.address != r2.address,
{
}

} // verus!
