//! Mandates: the customer's consent to later charges on a stored credential.

use vstd::prelude::*;
use crate::date_time::now;
use crate::secret::Secret;

verus! {

/// What a request means for stored credentials.
#[derive(Clone, Copy, Debug, PartialEq, Eq, Structural)]
pub enum MandateTxnType {
    /// A credential is being registered with this payment.
    NewMandateTxn,
    /// A credential that was registered before is used again.
    RecurringMandateTxn,
}

/// What a request means for stored credentials, from which of its two
/// mandate fields are present.
///
/// A mandate identifier decides alone: with one the payment is recurring,
/// whether or not mandate data came too. Without one, mandate data makes the
/// payment the first of a new mandate, and with neither the payment has
/// nothing to do with mandates.
pub open spec fn spec_classify(mandate_data_present: bool, mandate_id_present: bool) -> Option<
    MandateTxnType,
> {
    if mandate_id_present {
        Some(MandateTxnType::RecurringMandateTxn)
    } else if mandate_data_present {
        Some(MandateTxnType::NewMandateTxn)
    } else {
        None
    }
}

/// What a request means for stored credentials, from which of its two
/// mandate fields are present.
#[verifier::when_used_as_spec(spec_classify)]
pub fn classify(mandate_data_present: bool, mandate_id_present: bool) -> (kind: Option<
    MandateTxnType,
>)
    ensures
        kind == spec_classify(mandate_data_present, mandate_id_present),
{
    match (mandate_data_present, mandate_id_present) {
        (false, false) => None,
        (_, true) => Some(MandateTxnType::RecurringMandateTxn),
        (true, _) => Some(MandateTxnType::NewMandateTxn),
    }
}

/// The four rows of [`classify`]: neither field, mandate data alone, and a
/// mandate identifier with or without mandate data.
pub proof fn lemma_classify_table()
    ensures
        classify(false, false) == None::<MandateTxnType>,
        classify(true, false) == Some(MandateTxnType::NewMandateTxn),
        forall|mandate_data_present: bool| #[trigger]
            classify(mandate_data_present, true) == Some(MandateTxnType::RecurringMandateTxn),
{
}

/// How the customer accepted the mandate.
#[derive(Debug, PartialEq, Eq, Clone, Copy, Structural)]
pub enum AcceptanceType {
    Online,
    Offline,
}

impl Default for AcceptanceType {
    /// Offline, unless the request says otherwise.
    fn default() -> (kind: AcceptanceType)
        ensures
            kind == AcceptanceType::Offline,
    {
        AcceptanceType::Offline
    }
}

/// The evidence of an acceptance that was given online.
#[derive(Default, Eq, PartialEq, Clone)]
pub struct OnlineMandate {
    /// The address from which the customer accepted.
    pub ip_address: Secret,
    /// The browser with which the customer accepted.
    pub user_agent: String,
}

/// The customer's acceptance of a mandate: made once from the request that
/// carries it, and only read afterwards.
#[derive(Default, Eq, PartialEq, Clone)]
pub struct CustomerAcceptance {
    pub acceptance_type: AcceptanceType,
    /// When the customer accepted; where the request does not say, a reader
    /// takes the time of reading.
    pub accepted_at: Option<time::PrimitiveDateTime>,
    pub online: Option<OnlineMandate>,
}

/// What a request says of the mandate that it sets up.
#[derive(Default, Eq, PartialEq, Clone)]
pub struct MandateData {
    pub customer_acceptance: CustomerAcceptance,
}

impl CustomerAcceptance {
    /// The address from which the customer accepted online, revealed.
    pub open spec fn spec_ip_address(self) -> Option<Seq<char>> {
        match self.online {
            Some(online) => Some(online.ip_address@),
            None => None,
        }
    }

    /// The browser with which the customer accepted online.
    pub open spec fn spec_user_agent(self) -> Option<String> {
        match self.online {
            Some(online) => Some(online.user_agent),
            None => None,
        }
    }

    /// The time of acceptance, or `fallback` where the request gave none.
    pub open spec fn spec_accepted_at_or(self, fallback: time::PrimitiveDateTime) -> time::PrimitiveDateTime {
        match self.accepted_at {
            Some(at) => at,
            None => fallback,
        }
    }

    /// The address from which the customer accepted, where the acceptance
    /// was given online. This is a reveal of a secret: the text that comes
    /// back is a plain string.
    pub fn get_ip_address(&self) -> (ip_address: Option<String>)
        ensures
            crate::text::opt_text(ip_address) == self.spec_ip_address(),
    {
        match &self.online {
            Some(data) => Some(data.ip_address.peek().clone()),
            None => None,
        }
    }

    /// The browser with which the customer accepted, where the acceptance was
    /// given online.
    pub fn get_user_agent(&self) -> (user_agent: Option<String>)
        ensures
            user_agent == self.spec_user_agent(),
    {
        match &self.online {
            Some(data) => Some(data.user_agent.clone()),
            None => None,
        }
    }

    /// The time of acceptance, or `fallback` where the request gave none.
    pub fn accepted_at_or(&self, fallback: time::PrimitiveDateTime) -> (at: time::PrimitiveDateTime)
        ensures
            at == self.spec_accepted_at_or(fallback),
    {
        match self.accepted_at {
            Some(at) => at,
            None => fallback,
        }
    }

    /// The time of acceptance; where the request gave none, the time at
    /// which this is read, in UTC.
    ///
    /// The clock is read only where the request gave no time, and of what it
    /// says nothing is known here: [`CustomerAcceptance::accepted_at_or`] is
    /// the rule that this follows with the clock's answer.
    pub fn get_accepted_at(&self) -> (at: time::PrimitiveDateTime)
        ensures
            self.accepted_at matches Some(given) ==> at == given,
    {
        match self.accepted_at {
            Some(at) => at,
            None => self.accepted_at_or(now()),
        }
    }
}

} // verus!
