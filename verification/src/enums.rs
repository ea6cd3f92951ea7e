//! The closed sets of values that payments, attempts and refunds range over,
//! and the rule that turns an attempt's outcome into a payment's status.

use vstd::prelude::*;

verus! {

/// What a single attempt at a processor came to.
///
/// The set is closed: [`reduce`] matches on every member, so a member added
/// here without a status of its own there does not compile.
#[derive(Clone, Copy, Debug, PartialEq, Eq, Hash, Structural)]
pub enum AttemptStatus {
    Started,
    AuthenticationFailed,
    /// The processor refused the payment.
    ProcessorDeclined,
    /// The customer has to act before the attempt can go on, for example by
    /// answering a 3-D Secure challenge.
    PendingCustomerAction,
    /// The customer has done what was asked; the attempt goes on.
    CustomerActionCompleted,
    Authorized,
    AuthorizationFailed,
    Charged,
    Authorizing,
    CodInitiated,
    Voided,
    VoidInitiated,
    CaptureInitiated,
    CaptureFailed,
    VoidFailed,
    AutoRefunded,
    PartialCharged,
    Pending,
    Failure,
    PaymentMethodAwaited,
    ConfirmationAwaited,
}

/// The status of a payment as a client sees it.
#[derive(Clone, Copy, Debug, PartialEq, Eq, Hash, Structural)]
pub enum IntentStatus {
    Succeeded,
    Failed,
    Cancelled,
    Processing,
    RequiresCustomerAction,
    RequiresPaymentMethod,
    RequiresConfirmation,
    RequiresCapture,
}

/// The status that a payment takes from the outcome of its attempt.
///
/// A function of the outcome alone, defined on every outcome: the same
/// outcome gives the same status, whenever and wherever it is asked.
pub open spec fn reduce(attempt: AttemptStatus) -> IntentStatus {
    match attempt {
        AttemptStatus::Charged | AttemptStatus::AutoRefunded => IntentStatus::Succeeded,
        AttemptStatus::ConfirmationAwaited => IntentStatus::RequiresConfirmation,
        AttemptStatus::PaymentMethodAwaited => IntentStatus::RequiresPaymentMethod,
        AttemptStatus::Authorized => IntentStatus::RequiresCapture,
        AttemptStatus::PendingCustomerAction => IntentStatus::RequiresCustomerAction,
        AttemptStatus::PartialCharged
        | AttemptStatus::Started
        | AttemptStatus::CustomerActionCompleted
        | AttemptStatus::Authorizing
        | AttemptStatus::CodInitiated
        | AttemptStatus::VoidInitiated
        | AttemptStatus::CaptureInitiated
        | AttemptStatus::Pending => IntentStatus::Processing,
        AttemptStatus::AuthenticationFailed
        | AttemptStatus::AuthorizationFailed
        | AttemptStatus::VoidFailed
        | AttemptStatus::ProcessorDeclined
        | AttemptStatus::CaptureFailed
        | AttemptStatus::Failure => IntentStatus::Failed,
        AttemptStatus::Voided => IntentStatus::Cancelled,
    }
}

/// The table of [`reduce`] read from the status back to the outcomes: for
/// each status, the outcomes that give it and no others. Every outcome is in
/// exactly one row.
pub proof fn lemma_reduce_rows(attempt: AttemptStatus)
    ensures
        reduce(attempt) == IntentStatus::Succeeded <==> (attempt == AttemptStatus::Charged
            || attempt == AttemptStatus::AutoRefunded),
        reduce(attempt) == IntentStatus::RequiresConfirmation <==> attempt
            == AttemptStatus::ConfirmationAwaited,
        reduce(attempt) == IntentStatus::RequiresPaymentMethod <==> attempt
            == AttemptStatus::PaymentMethodAwaited,
        reduce(attempt) == IntentStatus::RequiresCapture <==> attempt == AttemptStatus::Authorized,
        reduce(attempt) == IntentStatus::RequiresCustomerAction <==> attempt
            == AttemptStatus::PendingCustomerAction,
        reduce(attempt) == IntentStatus::Processing <==> (attempt == AttemptStatus::PartialCharged
            || attempt == AttemptStatus::Started || attempt
            == AttemptStatus::CustomerActionCompleted || attempt == AttemptStatus::Authorizing
            || attempt == AttemptStatus::CodInitiated || attempt == AttemptStatus::VoidInitiated
            || attempt == AttemptStatus::CaptureInitiated || attempt == AttemptStatus::Pending),
        reduce(attempt) == IntentStatus::Failed <==> (attempt
            == AttemptStatus::AuthenticationFailed || attempt
            == AttemptStatus::AuthorizationFailed || attempt == AttemptStatus::VoidFailed
            || attempt == AttemptStatus::ProcessorDeclined || attempt
            == AttemptStatus::CaptureFailed || attempt == AttemptStatus::Failure),
        reduce(attempt) == IntentStatus::Cancelled <==> attempt == AttemptStatus::Voided,
{
}

/// Every status is the status of some outcome.
pub proof fn lemma_reduce_reaches_every_status(status: IntentStatus)
    ensures
        exists|attempt: AttemptStatus| reduce(attempt) == status,
{
    match status {
        IntentStatus::Succeeded => assert(reduce(AttemptStatus::Charged) == status),
        IntentStatus::Failed => assert(reduce(AttemptStatus::Failure) == status),
        IntentStatus::Cancelled => assert(reduce(AttemptStatus::Voided) == status),
        IntentStatus::Processing => assert(reduce(AttemptStatus::Pending) == status),
        IntentStatus::RequiresCustomerAction => assert(reduce(AttemptStatus::PendingCustomerAction)
            == status),
        IntentStatus::RequiresPaymentMethod => assert(reduce(AttemptStatus::PaymentMethodAwaited)
            == status),
        IntentStatus::RequiresConfirmation => assert(reduce(AttemptStatus::ConfirmationAwaited)
            == status),
        IntentStatus::RequiresCapture => assert(reduce(AttemptStatus::Authorized) == status),
    }
}

impl From<AttemptStatus> for IntentStatus {
    /// The status that a payment takes from the outcome `s` of its attempt.
    fn from(s: AttemptStatus) -> (status: IntentStatus)
        ensures
            status == reduce(s),
    {
        match s {
            AttemptStatus::Charged | AttemptStatus::AutoRefunded => IntentStatus::Succeeded,
            AttemptStatus::ConfirmationAwaited => IntentStatus::RequiresConfirmation,
            AttemptStatus::PaymentMethodAwaited => IntentStatus::RequiresPaymentMethod,
            AttemptStatus::Authorized => IntentStatus::RequiresCapture,
            AttemptStatus::PendingCustomerAction => IntentStatus::RequiresCustomerAction,
            AttemptStatus::PartialCharged
            | AttemptStatus::Started
            | AttemptStatus::CustomerActionCompleted
            | AttemptStatus::Authorizing
            | AttemptStatus::CodInitiated
            | AttemptStatus::VoidInitiated
            | AttemptStatus::CaptureInitiated
            | AttemptStatus::Pending => IntentStatus::Processing,
            AttemptStatus::AuthenticationFailed
            | AttemptStatus::AuthorizationFailed
            | AttemptStatus::VoidFailed
            | AttemptStatus::ProcessorDeclined
            | AttemptStatus::CaptureFailed
            | AttemptStatus::Failure => IntentStatus::Failed,
            AttemptStatus::Voided => IntentStatus::Cancelled,
        }
    }
}

impl vstd::std_specs::convert::FromSpecImpl<AttemptStatus> for IntentStatus {
    open spec fn obeys_from_spec() -> bool {
        true
    }

    open spec fn from_spec(s: AttemptStatus) -> IntentStatus {
        reduce(s)
    }
}

/// When the money of a payment is taken.
#[derive(Clone, Copy, Debug, Default, PartialEq, Eq, Hash, Structural)]
pub enum CaptureMethod {
    /// With the authorization.
    #[default]
    Automatic,
    /// When the merchant asks for it.
    Manual,
    /// At a time set beforehand.
    Scheduled,
}

/// Whether the means of payment is kept for later payments, and for which.
#[derive(Clone, Copy, Debug, Default, PartialEq, Eq, Hash, Structural)]
pub enum FutureUsage {
    /// For payments that the merchant starts without the customer.
    #[default]
    OffSession,
    /// For payments that the customer is present for.
    OnSession,
}

/// Whether the customer is asked to authenticate with the card's issuer.
#[derive(Clone, Copy, Debug, Default, PartialEq, Eq, Hash, Structural)]
pub enum AuthenticationType {
    #[default]
    ThreeDs,
    NoThreeDs,
}

/// The kinds of means of payment.
#[derive(Clone, Copy, Debug, Default, PartialEq, Eq, Hash, Structural)]
pub enum PaymentMethodType {
    Card,
    PaymentContainer,
    #[default]
    BankTransfer,
    BankDebit,
    PayLater,
    Netbanking,
    Upi,
    OpenBanking,
    ConsumerFinance,
    Wallet,
    Klarna,
    Paypal,
}

/// How far a refund has come.
#[derive(Clone, Copy, Debug, Default, PartialEq, Eq, Hash, Structural)]
pub enum RefundStatus {
    Succeeded,
    Failed,
    #[default]
    Pending,
    /// Somebody has to look at the refund before it can go on.
    NeedsAttention,
}

impl Default for AttemptStatus {
    /// An attempt of which nothing is known yet is pending.
    fn default() -> (status: AttemptStatus)
        ensures
            status == AttemptStatus::Pending,
    {
        AttemptStatus::Pending
    }
}

impl Default for IntentStatus {
    /// A payment that has not been confirmed yet.
    fn default() -> (status: IntentStatus)
        ensures
            status == IntentStatus::RequiresConfirmation,
    {
        IntentStatus::RequiresConfirmation
    }
}

} // verus!
