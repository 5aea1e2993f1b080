//! The service: what each request does to the store and to the count of
//! creation attempts, and what it answers.

use crate::auth::{
    extract_user_id, header_uses_bearer_scheme, identified, identifies, policy_checks, token_of,
    AuthError, TokenPolicy,
};
use crate::payment::{completed_payment, Payment, PaymentRequest, PaymentView};
use crate::store::{owned_by, views_of, PaymentStore};
use vstd::prelude::*;
use vstd::string::*;
use vstd::utf8::*;

verus! {

/// Why a request was turned down.
#[derive(Debug)]
pub enum ServiceError {
    /// The caller could not be identified.
    Unauthorized(AuthError),
    /// The amount is not strictly greater than zero.
    InvalidAmount,
}

impl ServiceError {
    pub open spec fn status_code_spec(self) -> u16 {
        match self {
            ServiceError::Unauthorized(_) => 401,
            ServiceError::InvalidAmount => 400,
        }
    }

    pub open spec fn message_spec(self) -> Seq<char> {
        match self {
            ServiceError::Unauthorized(refusal) => refusal.message_spec(),
            ServiceError::InvalidAmount => "Amount must be positive"@,
        }
    }

    /// The HTTP status that goes with the refusal.
    pub fn status_code(&self) -> (code: u16)
        ensures
            code == self.status_code_spec(),
    {
        match self {
            ServiceError::Unauthorized(_) => 401,
            ServiceError::InvalidAmount => 400,
        }
    }

    /// The text shown to the caller.
    pub fn message(&self) -> (text: String)
        ensures
            text@ == self.message_spec(),
    {
        match self {
            ServiceError::Unauthorized(refusal) => refusal.message(),
            ServiceError::InvalidAmount => String::from_str("Amount must be positive"),
        }
    }
}

/// The status that answers a created payment.
pub const STATUS_CREATED: u16 = 201;

/// The status that answers a listing.
pub const STATUS_OK: u16 = 200;

/// The answer to a liveness probe.
#[derive(Debug)]
pub struct Health {
    pub status: String,
    pub service: String,
    pub timestamp: String,
}

impl Health {
    /// The answer given at the moment `timestamp`.
    pub fn at(timestamp: String) -> (health: Health)
        ensures
            health.status@ == "ok"@,
            health.service@ == "payment-service"@,
            health.timestamp@ == timestamp@,
    {
        Health {
            status: String::from_str("ok"),
            service: String::from_str("payment-service"),
            timestamp,
        }
    }
}

/// `uuid::Uuid::new_v4` in its hyphenated text form. The identifier is
/// random; its text always has 36 characters.
#[verifier::external_body]
fn fresh_id() -> (id: String)
    ensures
        id@.len() == 36,
{
    uuid::Uuid::new_v4().to_string()
}

/// `chrono::Utc::now` as RFC 3339 text. Nothing is claimed of the clock; the
/// text always holds a date, a time to the second and an offset, which take
/// 25 characters at least.
#[verifier::external_body]
fn current_timestamp() -> (stamp: String)
    ensures
        stamp@.len() >= 25,
{
    chrono::Utc::now().to_rfc3339()
}

/// Answers a liveness probe: always the same but for the time.
pub fn health() -> (health: Health)
    ensures
        health.status@ == "ok"@,
        health.service@ == "payment-service"@,
        health.timestamp@.len() >= 25,
{
    Health::at(current_timestamp())
}

/// The count after one more attempt: one more, up to the largest count that
/// can be held.
pub open spec fn counted(attempts: nat) -> nat {
    if attempts < u64::MAX {
        attempts + 1
    } else {
        attempts
    }
}

/// The count after `times` more attempts.
pub open spec fn counted_times(attempts: nat, times: nat) -> nat
    decreases times,
{
    if times == 0 {
        attempts
    } else {
        counted(counted_times(attempts, (times - 1) as nat))
    }
}

/// `outcome` is the answer to a creation request of a caller who was
/// identified, or of one whose token names nobody.
pub open spec fn creation_answers(
    outcome: Result<Payment, ServiceError>,
    caller: Option<i64>,
    request: PaymentRequest,
) -> bool {
    match caller {
        Some(user_id) => if request.amount.is_positive() {
            outcome matches Ok(payment) && payment@.user_id == user_id
        } else {
            outcome matches Err(ServiceError::InvalidAmount)
        },
        None => outcome matches Err(ServiceError::Unauthorized(AuthError::InvalidCredential(_))),
    }
}

/// `outcome` is the answer to a listing request of a caller who was
/// identified, or of one whose token names nobody.
pub open spec fn listing_answers(
    outcome: Result<Vec<&Payment>, ServiceError>,
    caller: Option<i64>,
    records: Seq<PaymentView>,
) -> bool {
    match caller {
        Some(user_id) => outcome matches Ok(found) && views_of(found@) == owned_by(
            records,
            user_id,
        ),
        None => outcome matches Err(ServiceError::Unauthorized(AuthError::InvalidCredential(_))),
    }
}

/// The service as contracts see it.
pub struct ServiceView {
    pub records: Seq<PaymentView>,
    pub attempts: nat,
}

/// The stored payments and the count of creation attempts.
pub struct PaymentService {
    store: PaymentStore,
    attempts: u64,
}

impl View for PaymentService {
    type V = ServiceView;

    closed spec fn view(&self) -> ServiceView {
        ServiceView { records: self.store@, attempts: self.attempts as nat }
    }
}

impl PaymentService {
    /// A service that holds no payment and has seen no attempt.
    pub fn new() -> (service: PaymentService)
        ensures
            service@.records == Seq::<PaymentView>::empty(),
            service@.attempts == 0,
    {
        PaymentService { store: PaymentStore::new(), attempts: 0 }
    }

    /// How many creations were attempted, accepted or not.
    pub fn attempts(&self) -> (count: u64)
        ensures
            count == self@.attempts,
    {
        self.attempts
    }

    /// The stored payments.
    pub fn store(&self) -> (store: &PaymentStore)
        ensures
            store@ == self@.records,
    {
        &self.store
    }

    fn count_attempt(&mut self)
        ensures
            final(self)@.attempts == counted(old(self)@.attempts),
            final(self)@.records == old(self)@.records,
    {
        if self.attempts < u64::MAX {
            self.attempts = self.attempts + 1;
        }
    }

    /// Creates a payment for a caller who was identified, or not. The attempt
    /// is counted whatever comes of it. A caller who was refused gets that
    /// refusal; an amount that is not positive is turned down; in both cases
    /// the store stays as it was. Otherwise the completed payment is stored
    /// after all the others and returned, under a fresh identifier and with
    /// the time of its creation.
    pub fn create_payment_as(
        &mut self,
        caller: Result<i64, AuthError>,
        request: &PaymentRequest,
    ) -> (outcome: Result<Payment, ServiceError>)
        ensures
            final(self)@.attempts == counted(old(self)@.attempts),
            match caller {
                Err(refusal) => {
                    &&& outcome matches Err(ServiceError::Unauthorized(why))
                    &&& why == refusal
                    &&& final(self)@.records == old(self)@.records
                },
                Ok(user_id) => if request.amount.is_positive() {
                    &&& outcome matches Ok(payment)
                    &&& payment@ == completed_payment(
                        payment@.id,
                        user_id,
                        *request,
                        payment@.created_at,
                    )
                    &&& payment@.id.len() == 36
                    &&& payment@.created_at.len() >= 25
                    &&& final(self)@.records == old(self)@.records.push(payment@)
                } else {
                    &&& outcome matches Err(ServiceError::InvalidAmount)
                    &&& final(self)@.records == old(self)@.records
                },
            },
    {
        self.count_attempt();
        let user_id = match caller {
            Ok(user_id) => user_id,
            Err(refusal) => return Err(ServiceError::Unauthorized(refusal)),
        };
        if !request.amount.positive() {
            return Err(ServiceError::InvalidAmount);
        }
        let payment = Payment::completed(fresh_id(), user_id, request, current_timestamp());
        self.store.append(payment.clone());
        Ok(payment)
    }

    /// Lists the payments of a caller who was identified, oldest first, or
    /// hands on the refusal.
    pub fn list_payments_as(&self, caller: Result<i64, AuthError>) -> (outcome: Result<
        Vec<&Payment>,
        ServiceError,
    >)
        ensures
            match caller {
                Err(refusal) => outcome matches Err(ServiceError::Unauthorized(why)) && why
                    == refusal,
                Ok(user_id) => outcome matches Ok(found) && views_of(found@) == owned_by(
                    self@.records,
                    user_id,
                ),
            },
    {
        match caller {
            Ok(user_id) => Ok(self.store.list_by_owner(user_id)),
            Err(refusal) => Err(ServiceError::Unauthorized(refusal)),
        }
    }

    /// Handles a request to create a payment: identifies the caller from the
    /// authorization header, then proceeds as `create_payment_as` does.
    pub fn create_payment(
        &mut self,
        authorization: Option<&[u8]>,
        policy: &TokenPolicy,
        request: &PaymentRequest,
    ) -> (outcome: Result<Payment, ServiceError>)
        ensures
            final(self)@.attempts == counted(old(self)@.attempts),
            authorization is None ==> outcome matches Err(
                ServiceError::Unauthorized(AuthError::MissingCredential),
            ),
            authorization matches Some(header) && !header_uses_bearer_scheme(header@)
                ==> outcome matches Err(ServiceError::Unauthorized(AuthError::MalformedCredential)),
            authorization matches Some(header) && header_uses_bearer_scheme(header@) ==> {
                ||| outcome is Ok
                ||| outcome matches Err(ServiceError::InvalidAmount)
                ||| outcome matches Err(
                    ServiceError::Unauthorized(AuthError::InvalidCredential(_)),
                )
            },
            authorization matches Some(header) ==> (header_uses_bearer_scheme(header@) ==> exists|
                validation: jsonwebtoken::Validation,
            | #[trigger]
                policy_checks(validation, *policy) && creation_answers(
                    outcome,
                    identified(token_of(decode_utf8(header@)), *policy, validation),
                    *request,
                )),
            match outcome {
                Ok(payment) => {
                    &&& authorization matches Some(header) && header_uses_bearer_scheme(header@)
                    &&& request.amount.is_positive()
                    &&& payment@ == completed_payment(
                        payment@.id,
                        payment@.user_id,
                        *request,
                        payment@.created_at,
                    )
                    &&& payment@.id.len() == 36
                    &&& payment@.created_at.len() >= 25
                    &&& final(self)@.records == old(self)@.records.push(payment@)
                },
                Err(ServiceError::Unauthorized(_)) => final(self)@.records == old(self)@.records,
                Err(ServiceError::InvalidAmount) => {
                    &&& authorization matches Some(header) && header_uses_bearer_scheme(header@)
                    &&& !request.amount.is_positive()
                    &&& final(self)@.records == old(self)@.records
                },
            },
    {
        let caller = extract_user_id(authorization, policy);
        let ghost token = match authorization {
            Some(header) => token_of(decode_utf8(header@)),
            None => Seq::<char>::empty(),
        };
        let ghost checks = choose|validation: jsonwebtoken::Validation| #[trigger]
            policy_checks(validation, *policy) && identifies(caller, token, *policy, validation);
        let outcome = self.create_payment_as(caller, request);
        proof {
            if authorization matches Some(header) && header_uses_bearer_scheme(header@) {
                assert(policy_checks(checks, *policy) && creation_answers(
                    outcome,
                    identified(token, *policy, checks),
                    *request,
                ));
            }
        }
        outcome
    }

    /// Handles a request to list payments: identifies the caller from the
    /// authorization header, then proceeds as `list_payments_as` does.
    pub fn list_payments(&self, authorization: Option<&[u8]>, policy: &TokenPolicy) -> (outcome: Result<
        Vec<&Payment>,
        ServiceError,
    >)
        ensures
            authorization is None ==> outcome matches Err(
                ServiceError::Unauthorized(AuthError::MissingCredential),
            ),
            authorization matches Some(header) && !header_uses_bearer_scheme(header@)
                ==> outcome matches Err(ServiceError::Unauthorized(AuthError::MalformedCredential)),
            authorization matches Some(header) && header_uses_bearer_scheme(header@) ==> {
                ||| outcome is Ok
                ||| outcome matches Err(
                    ServiceError::Unauthorized(AuthError::InvalidCredential(_)),
                )
            },
            authorization matches Some(header) ==> (header_uses_bearer_scheme(header@) ==> exists|
                validation: jsonwebtoken::Validation,
            | #[trigger]
                policy_checks(validation, *policy) && listing_answers(
                    outcome,
                    identified(token_of(decode_utf8(header@)), *policy, validation),
                    self@.records,
                )),
            match outcome {
                Ok(found) => {
                    &&& authorization matches Some(header) && header_uses_bearer_scheme(header@)
                    &&& exists|user_id: i64| views_of(found@) == owned_by(self@.records, user_id)
                },
                Err(refusal) => refusal is Unauthorized,
            },
    {
        let caller = extract_user_id(authorization, policy);
        let ghost token = match authorization {
            Some(header) => token_of(decode_utf8(header@)),
            None => Seq::<char>::empty(),
        };
        let ghost checks = choose|validation: jsonwebtoken::Validation| #[trigger]
            policy_checks(validation, *policy) && identifies(caller, token, *policy, validation);
        let outcome = self.list_payments_as(caller);
        proof {
            if authorization matches Some(header) && header_uses_bearer_scheme(header@) {
                assert(policy_checks(checks, *policy) && listing_answers(
                    outcome,
                    identified(token, *policy, checks),
                    self@.records,
                ));
            }
        }
        outcome
    }
}

/// From a count that leaves room for them, `times` attempts raise the count
/// by exactly `times`: a new service that has seen `times` attempts, accepted
/// or refused, counts `times`.
pub proof fn law_every_attempt_is_counted(attempts: nat, times: nat)
    requires
        attempts + times <= u64::MAX,
    ensures
        counted_times(attempts, times) == attempts + times,
    decreases times,
{
    if times > 0 {
        law_every_attempt_is_counted(attempts, (times - 1) as nat);
    }
}

/// The count never goes down.
pub proof fn law_count_never_decreases(attempts: nat, times: nat)
    ensures
        counted_times(attempts, times) >= attempts,
    decreases times,
{
    if times > 0 {
        law_count_never_decreases(attempts, (times - 1) as nat);
    }
}

/// A refused request is answered with 401 where the caller could not be
/// identified, a missing authorization header included, and with 400 where
/// the amount was not positive.
pub proof fn law_refusal_statuses(refusal: ServiceError)
    ensures
        refusal is Unauthorized ==> refusal.status_code_spec() == 401,
        refusal is InvalidAmount ==> refusal.status_code_spec() == 400,
{
}

} // verus!
