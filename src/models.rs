use vstd::prelude::*;
use crate::record_id::RecordId;

verus! {

/// A registered user. Times are milliseconds since the Unix epoch.
#[derive(Clone, Debug)]
pub struct User {
    pub id: Option<RecordId>,
    pub username: String,
    pub email: String,
    pub password_hash: String,
    pub created_at: i64,
}

/// A generated medication review plan, owned by one user.
#[derive(Clone, Debug)]
pub struct MedicationPlan {
    pub id: Option<RecordId>,
    pub user_id: RecordId,
    pub medication_name: String,
    pub plan_content: String,
    pub created_at: i64,
    pub focus_areas: Vec<String>,
}

/// A periodic review of how a medication is working.
#[derive(Clone, Debug)]
pub struct MedicationReview {
    pub id: Option<RecordId>,
    pub user_id: RecordId,
    pub plan_id: RecordId,
    pub date: i64,
    pub symptoms: String,
    pub side_effects: String,
    pub notes: String,
    pub rating: i32,
}

/// Credentials sent to register or log in.
#[derive(Clone, Debug)]
pub struct AuthRequest {
    pub username: String,
    pub password: String,
}

/// A token and the id of the user it was issued for.
#[derive(Clone, Debug)]
pub struct AuthResponse {
    pub token: String,
    pub user_id: String,
}

/// A request for a plan for one medication, with the areas to focus on.
#[derive(Clone, Debug)]
pub struct GeneratePlanRequest {
    pub user_id: String,
    pub medication_name: String,
    pub focus_areas: Vec<String>,
}

/// A review as submitted, with ids and date still in text form.
#[derive(Clone, Debug)]
pub struct CreateReviewRequest {
    pub user_id: String,
    pub plan_id: String,
    pub date: String,
    pub symptoms: String,
    pub side_effects: String,
    pub notes: String,
    pub rating: i32,
}

impl User {
    /// The record as stored, amended with the id that the store assigned.
    pub fn with_id(self, id: RecordId) -> (r: User)
        ensures
            r == (User { id: Some(id), ..self }),
    {
        User { id: Some(id), ..self }
    }
}

impl MedicationPlan {
    /// The record as stored, amended with the id that the store assigned.
    pub fn with_id(self, id: RecordId) -> (r: MedicationPlan)
        ensures
            r == (MedicationPlan { id: Some(id), ..self }),
    {
        MedicationPlan { id: Some(id), ..self }
    }
}

impl MedicationReview {
    /// The record as stored, amended with the id that the store assigned.
    pub fn with_id(self, id: RecordId) -> (r: MedicationReview)
        ensures
            r == (MedicationReview { id: Some(id), ..self }),
    {
        MedicationReview { id: Some(id), ..self }
    }
}

} // verus!
