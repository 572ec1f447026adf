//! Request and response data shapes around the domain endpoints, as plain
//! values: registration payloads, query filters and response views. The
//! (de)serialisation of these shapes to the wire stays outside the
//! library; the shapes and their builders live here.

use vstd::prelude::*;

use crate::strutil::{ascii_lower, eq_ignore_ascii_case, trim, trim_spec};

verus! {

/// Filter for breed listings.
#[derive(Debug, Clone)]
pub struct BreedQuery {
    pub specie: Option<String>,
    pub name: Option<String>,
}

/// Payload registering a breed.
#[derive(Debug, Clone)]
pub struct RegisterBreed {
    pub specie: String,
    pub name: String,
    pub description: Option<String>,
    pub typical_male_weight_range: Option<String>,
    pub typical_female_weight_range: Option<String>,
    pub typical_gestation_period: Option<String>,
}

impl RegisterBreed {
    /// Starts a registration payload from the two required fields.
    pub fn new(specie: &str, name: &str) -> (r: RegisterBreed)
        ensures
            r.specie@ == specie@,
            r.name@ == name@,
            r.description is None,
            r.typical_male_weight_range is None,
            r.typical_female_weight_range is None,
            r.typical_gestation_period is None,
    {
        RegisterBreed {
            specie: specie.to_owned(),
            name: name.to_owned(),
            description: None,
            typical_male_weight_range: None,
            typical_female_weight_range: None,
            typical_gestation_period: None,
        }
    }

    /// Sets the typical male weight range, leaving the rest unchanged.
    pub fn male_weight_range(self, weight: &str) -> (r: RegisterBreed)
        ensures
            r.typical_male_weight_range.deep_view() == Some(weight@),
            r.specie@ == self.specie@,
            r.name@ == self.name@,
            r.description.deep_view() == self.description.deep_view(),
            r.typical_female_weight_range.deep_view() == self.typical_female_weight_range.deep_view(),
            r.typical_gestation_period.deep_view() == self.typical_gestation_period.deep_view(),
    {
        RegisterBreed { typical_male_weight_range: Some(weight.to_owned()), ..self }
    }

    /// Sets the typical female weight range, leaving the rest unchanged.
    pub fn female_weight_range(self, weight: &str) -> (r: RegisterBreed)
        ensures
            r.typical_female_weight_range.deep_view() == Some(weight@),
            r.specie@ == self.specie@,
            r.name@ == self.name@,
            r.description.deep_view() == self.description.deep_view(),
            r.typical_male_weight_range.deep_view() == self.typical_male_weight_range.deep_view(),
            r.typical_gestation_period.deep_view() == self.typical_gestation_period.deep_view(),
    {
        RegisterBreed { typical_female_weight_range: Some(weight.to_owned()), ..self }
    }

    /// Sets the typical gestation period, leaving the rest unchanged.
    pub fn gestation_period(self, period: &str) -> (r: RegisterBreed)
        ensures
            r.typical_gestation_period.deep_view() == Some(period@),
            r.specie@ == self.specie@,
            r.name@ == self.name@,
            r.description.deep_view() == self.description.deep_view(),
            r.typical_male_weight_range.deep_view() == self.typical_male_weight_range.deep_view(),
            r.typical_female_weight_range.deep_view() == self.typical_female_weight_range.deep_view(),
    {
        RegisterBreed { typical_gestation_period: Some(period.to_owned()), ..self }
    }

    /// Sets the description, leaving the rest unchanged.
    pub fn description(self, description: &str) -> (r: RegisterBreed)
        ensures
            r.description.deep_view() == Some(description@),
            r.specie@ == self.specie@,
            r.name@ == self.name@,
            r.typical_male_weight_range.deep_view() == self.typical_male_weight_range.deep_view(),
            r.typical_female_weight_range.deep_view() == self.typical_female_weight_range.deep_view(),
            r.typical_gestation_period.deep_view() == self.typical_gestation_period.deep_view(),
    {
        RegisterBreed { description: Some(description.to_owned()), ..self }
    }

    /// The specie this breed belongs to.
    pub fn specie(&self) -> (r: &str)
        ensures
            r@ == self.specie@,
    {
        self.specie.as_str()
    }
}

/// Payload updating a breed: every field optional.
#[derive(Debug, Clone, Default)]
pub struct UpdateBreed {
    pub specie: Option<String>,
    pub name: Option<String>,
    pub description: Option<String>,
    pub typical_male_weight_range: Option<String>,
    pub typical_female_weight_range: Option<String>,
    pub typical_gestation_period: Option<String>,
}

impl UpdateBreed {
    /// Sets the typical male weight range, leaving the rest unchanged.
    pub fn male_weight_range(self, weight: &str) -> (r: UpdateBreed)
        ensures
            r.typical_male_weight_range.deep_view() == Some(weight@),
            r.specie.deep_view() == self.specie.deep_view(),
            r.name.deep_view() == self.name.deep_view(),
            r.description.deep_view() == self.description.deep_view(),
            r.typical_female_weight_range.deep_view() == self.typical_female_weight_range.deep_view(),
            r.typical_gestation_period.deep_view() == self.typical_gestation_period.deep_view(),
    {
        UpdateBreed { typical_male_weight_range: Some(weight.to_owned()), ..self }
    }

    /// Sets the typical female weight range, leaving the rest unchanged.
    pub fn female_weight_range(self, weight: &str) -> (r: UpdateBreed)
        ensures
            r.typical_female_weight_range.deep_view() == Some(weight@),
            r.specie.deep_view() == self.specie.deep_view(),
            r.name.deep_view() == self.name.deep_view(),
            r.description.deep_view() == self.description.deep_view(),
            r.typical_male_weight_range.deep_view() == self.typical_male_weight_range.deep_view(),
            r.typical_gestation_period.deep_view() == self.typical_gestation_period.deep_view(),
    {
        UpdateBreed { typical_female_weight_range: Some(weight.to_owned()), ..self }
    }

    /// Sets the typical gestation period, leaving the rest unchanged.
    pub fn gestation_period(self, period: &str) -> (r: UpdateBreed)
        ensures
            r.typical_gestation_period.deep_view() == Some(period@),
            r.specie.deep_view() == self.specie.deep_view(),
            r.name.deep_view() == self.name.deep_view(),
            r.description.deep_view() == self.description.deep_view(),
            r.typical_male_weight_range.deep_view() == self.typical_male_weight_range.deep_view(),
            r.typical_female_weight_range.deep_view() == self.typical_female_weight_range.deep_view(),
    {
        UpdateBreed { typical_gestation_period: Some(period.to_owned()), ..self }
    }

    /// Sets the description, leaving the rest unchanged.
    pub fn description(self, description: &str) -> (r: UpdateBreed)
        ensures
            r.description.deep_view() == Some(description@),
            r.specie.deep_view() == self.specie.deep_view(),
            r.name.deep_view() == self.name.deep_view(),
            r.typical_male_weight_range.deep_view() == self.typical_male_weight_range.deep_view(),
            r.typical_female_weight_range.deep_view() == self.typical_female_weight_range.deep_view(),
            r.typical_gestation_period.deep_view() == self.typical_gestation_period.deep_view(),
    {
        UpdateBreed { description: Some(description.to_owned()), ..self }
    }

    /// Sets the specie, leaving the rest unchanged.
    pub fn specie(self, specie: &str) -> (r: UpdateBreed)
        ensures
            r.specie.deep_view() == Some(specie@),
            r.name.deep_view() == self.name.deep_view(),
            r.description.deep_view() == self.description.deep_view(),
            r.typical_male_weight_range.deep_view() == self.typical_male_weight_range.deep_view(),
            r.typical_female_weight_range.deep_view() == self.typical_female_weight_range.deep_view(),
            r.typical_gestation_period.deep_view() == self.typical_gestation_period.deep_view(),
    {
        UpdateBreed { specie: Some(specie.to_owned()), ..self }
    }

    /// Sets the name, leaving the rest unchanged.
    pub fn name(self, name: &str) -> (r: UpdateBreed)
        ensures
            r.name.deep_view() == Some(name@),
            r.specie.deep_view() == self.specie.deep_view(),
            r.description.deep_view() == self.description.deep_view(),
            r.typical_male_weight_range.deep_view() == self.typical_male_weight_range.deep_view(),
            r.typical_female_weight_range.deep_view() == self.typical_female_weight_range.deep_view(),
            r.typical_gestation_period.deep_view() == self.typical_gestation_period.deep_view(),
    {
        UpdateBreed { name: Some(name.to_owned()), ..self }
    }
}

/// Payload registering an animal.
#[derive(Debug, Clone)]
pub struct RegisterAnimal {
    pub tag_id: String,
    pub name: String,
    pub gender: String,
    pub status: String,
    pub specie: String,
    pub breed: String,
    pub date_of_birth: Option<String>,
    pub female_parent_id: Option<String>,
    pub male_parent_id: Option<String>,
    pub purchase_date: Option<String>,
    pub purchase_price: Option<i64>,
    pub weight_at_birth: Option<i64>,
    pub current_weight: Option<i64>,
    pub notes: Option<String>,
}

/// Payload updating an animal: every field optional.
#[derive(Debug, Clone, Default)]
pub struct UpdateAnimal {
    pub tag_id: Option<String>,
    pub name: Option<String>,
    pub gender: Option<String>,
    pub status: Option<String>,
    pub specie: Option<String>,
    pub breed: Option<String>,
    pub date_of_birth: Option<String>,
    pub female_parent_id: Option<String>,
    pub male_parent_id: Option<String>,
    pub purchase_date: Option<String>,
    pub purchase_price: Option<i64>,
    pub weight_at_birth: Option<i64>,
    pub current_weight: Option<i64>,
    pub notes: Option<String>,
}

/// An animal's gender.
#[derive(Debug, Clone, Copy, PartialEq, Eq, Structural)]
pub enum Gender {
    Male,
    Female,
}

impl Gender {
    /// The wire name of the gender.
    pub open spec fn spec_name(&self) -> Seq<char> {
        match self {
            Gender::Male => "male"@,
            Gender::Female => "female"@,
        }
    }

    /// The wire name of the gender.
    pub fn name(&self) -> (r: &'static str)
        ensures
            r@ == self.spec_name(),
    {
        match self {
            Gender::Male => "male",
            Gender::Female => "female",
        }
    }

    /// Reads a gender from its wire name, ignoring surrounding whitespace
    /// and ASCII case; any other name is rejected.
    pub fn parse(value: &str) -> (r: Option<Gender>)
        ensures
            ({
                let t = ascii_lower(trim_spec(value@));
                if t == ascii_lower("male"@) {
                    r == Some(Gender::Male)
                } else if t == ascii_lower("female"@) {
                    r == Some(Gender::Female)
                } else {
                    r is None
                }
            }),
    {
        let t = trim(value);
        if eq_ignore_ascii_case(t, "male") {
            Some(Gender::Male)
        } else if eq_ignore_ascii_case(t, "female") {
            Some(Gender::Female)
        } else {
            None
        }
    }
}

/// An organisation's subscription kind.
#[derive(Debug, Clone, Copy, PartialEq, Eq, Structural)]
pub enum Subscription {
    Basic,
    Business,
    Enterprise,
}

impl Subscription {
    /// The wire name of the subscription kind.
    pub open spec fn spec_name(&self) -> Seq<char> {
        match self {
            Subscription::Basic => "basic"@,
            Subscription::Business => "business"@,
            Subscription::Enterprise => "enterprise"@,
        }
    }

    /// The wire name of the subscription kind.
    pub fn name(&self) -> (r: &'static str)
        ensures
            r@ == self.spec_name(),
    {
        match self {
            Subscription::Basic => "basic",
            Subscription::Business => "business",
            Subscription::Enterprise => "enterprise",
        }
    }

    /// Reads a subscription kind from its wire name, ignoring surrounding
    /// whitespace and ASCII case; any other name falls back to `Basic`.
    pub fn from_name(s: &str) -> (r: Subscription)
        ensures
            ({
                let t = ascii_lower(trim_spec(s@));
                if t == ascii_lower("business"@) {
                    r == Subscription::Business
                } else if t == ascii_lower("enterprise"@) {
                    r == Subscription::Enterprise
                } else {
                    r == Subscription::Basic
                }
            }),
    {
        let t = trim(s);
        if eq_ignore_ascii_case(t, "business") {
            Subscription::Business
        } else if eq_ignore_ascii_case(t, "enterprise") {
            Subscription::Enterprise
        } else {
            Subscription::Basic
        }
    }

    /// Reads a subscription kind from its wire name, ignoring surrounding
    /// whitespace and ASCII case; any other name is rejected.
    pub fn parse(s: &str) -> (r: Result<Subscription, crate::errors::AuthError>)
        ensures
            ({
                let t = ascii_lower(trim_spec(s@));
                if t == ascii_lower("basic"@) {
                    r == Ok::<Subscription, crate::errors::AuthError>(Subscription::Basic)
                } else if t == ascii_lower("business"@) {
                    r == Ok::<Subscription, crate::errors::AuthError>(Subscription::Business)
                } else if t == ascii_lower("enterprise"@) {
                    r == Ok::<Subscription, crate::errors::AuthError>(Subscription::Enterprise)
                } else {
                    r == Err::<Subscription, crate::errors::AuthError>(
                        crate::errors::AuthError::InvalidSubscriptionType,
                    )
                }
            }),
    {
        let t = trim(s);
        if eq_ignore_ascii_case(t, "basic") {
            Ok(Subscription::Basic)
        } else if eq_ignore_ascii_case(t, "business") {
            Ok(Subscription::Business)
        } else if eq_ignore_ascii_case(t, "enterprise") {
            Ok(Subscription::Enterprise)
        } else {
            Err(crate::errors::AuthError::InvalidSubscriptionType)
        }
    }
}

/// The role names an administrator may hand out.
pub fn validate_role(role: &str) -> (r: bool)
    ensures
        ({
            let t = ascii_lower(trim_spec(role@));
            r == (t == ascii_lower("admin"@) || t == ascii_lower("manager"@) || t == ascii_lower(
                "staff"@,
            ))
        }),
{
    let t = trim(role);
    eq_ignore_ascii_case(t, "admin") || eq_ignore_ascii_case(t, "manager")
        || eq_ignore_ascii_case(t, "staff")
}

/// Payload registering the first administrator of an organisation.
#[derive(Debug, Clone)]
pub struct RegisterAdmin {
    pub email: String,
    pub first_name: String,
    pub last_name: String,
    pub password: String,
    pub confirm_password: String,
}

/// Login credentials.
#[derive(Debug, Clone)]
pub struct LoginUser {
    pub email: String,
    pub password: String,
}

/// Payload changing a password.
#[derive(Debug, Clone)]
pub struct UpdatePassword {
    pub email: String,
    pub password: String,
    pub confirm_password: String,
}

/// Payload creating a further user under an organisation.
#[derive(Debug, Clone)]
pub struct CreateNewUser {
    pub email: String,
    pub first_name: String,
    pub last_name: String,
    pub role: String,
}

/// Payload registering an organisation.
#[derive(Debug, Clone)]
pub struct RegisterOrg {
    pub name: String,
    pub address: Option<String>,
    pub phone: Option<String>,
    pub email: Option<String>,
    pub subscription_type: Option<String>,
}

/// The combined payload registering an organisation and its administrator.
#[derive(Debug, Clone)]
pub struct RegisterAdminParams {
    pub organisation: RegisterOrg,
    pub user: RegisterAdmin,
}

/// Payload recording a production event.
#[derive(Debug, Clone)]
pub struct NewProductionRecord {
    pub tag_id: String,
    pub production_type: String,
    pub quantity: i64,
    pub unit: String,
    pub quality: Option<String>,
    pub notes: Option<String>,
    pub record_date: Option<String>,
}

/// Payload recording a health event.
#[derive(Debug, Clone)]
pub struct NewHealthRecord {
    pub tag_id: String,
    pub record_date: String,
    pub condition: String,
    pub description: String,
    pub treatment: String,
    pub severity: String,
    pub status: String,
    pub medicine: Option<String>,
    pub dosage: Option<String>,
    pub cost: Option<i64>,
    pub performed_by: Option<String>,
    pub prognosis: Option<String>,
    pub notes: Option<String>,
}

/// Filter for organisation listings.
#[derive(Debug, Clone, Default)]
pub struct OrganisationQuery {
    pub subscription: Option<Subscription>,
}

impl OrganisationQuery {
    /// A filter on one subscription kind.
    pub fn new(sub: Subscription) -> (r: OrganisationQuery)
        ensures
            r.subscription == Some(sub),
    {
        OrganisationQuery { subscription: Some(sub) }
    }
}

/// Filter for user listings.
#[derive(Debug, Clone, Default)]
pub struct UserQuery {
    pub role: Option<String>,
    pub active: Option<bool>,
}

impl UserQuery {
    /// A filter on role and activity.
    pub fn new(role: Option<String>, active: Option<bool>) -> (r: UserQuery)
        ensures
            r.role == role,
            r.active == active,
    {
        UserQuery { role, active }
    }
}

/// Filter for health-record listings.
#[derive(Debug, Clone, Default)]
pub struct HealthRecordsQuery {
    pub animal: Option<String>,
    pub record_type: Option<String>,
}

impl HealthRecordsQuery {
    /// A filter on animal identity and record kind.
    pub fn new(animal: Option<&str>, record_type: Option<&str>) -> (r: HealthRecordsQuery)
        ensures
            r.animal.deep_view() == animal.deep_view(),
            r.record_type.deep_view() == record_type.deep_view(),
    {
        HealthRecordsQuery {
            animal: match animal {
                Some(a) => Some(a.to_owned()),
                None => None,
            },
            record_type: match record_type {
                Some(t) => Some(t.to_owned()),
                None => None,
            },
        }
    }
}

/// Filter for breed summaries.
#[derive(Debug, Clone, Default)]
pub struct BreedSummaryQuery {
    pub specie: Option<String>,
    pub breed: Option<String>,
}

/// A plain message body.
#[derive(Debug, Clone)]
pub struct GenericResponse {
    pub message: String,
}

impl GenericResponse {
    /// Wraps a message.
    pub fn new(msg: &str) -> (r: GenericResponse)
        ensures
            r.message@ == msg@,
    {
        GenericResponse { message: msg.to_owned() }
    }
}

/// The view of a breed an endpoint answers with.
#[derive(Debug, Clone)]
pub struct BreedResponse {
    pub id: i32,
    pub organisation_pid: Option<String>,
    pub specie: String,
    pub name: String,
    pub male_weight_range: Option<String>,
    pub female_weight_range: Option<String>,
    pub gestation_period: Option<String>,
    pub description: Option<String>,
    pub created_at: String,
    pub is_system_defined: bool,
}

/// What a successful login answers with.
#[derive(Debug, Clone)]
pub struct LoginResponse {
    pub pid: String,
    pub email: String,
    pub name: String,
    pub created_at: String,
}

impl LoginResponse {
    /// Builds the login view: the display name joins the first and last
    /// name with one space.
    pub fn new(pid: &str, email: &str, first_name: &str, last_name: &str, created_at: &str) -> (r:
        LoginResponse)
        ensures
            r.pid@ == pid@,
            r.email@ == email@,
            r.name@ == first_name@ + " "@ + last_name@,
            r.created_at@ == created_at@,
    {
        let mut name = String::new();
        name.append(first_name);
        name.append(" ");
        name.append(last_name);
        LoginResponse {
            pid: pid.to_owned(),
            email: email.to_owned(),
            name,
            created_at: created_at.to_owned(),
        }
    }
}

} // verus!
