//! The pages of the questionnaire module.

use vstd::prelude::*;
use super::models::Questionnaire;
use crate::users::models::AuthUser;

verus! {

pub struct QuestionnairesTemplate {
    pub auth_user: Option<AuthUser>,
    pub questionnaires: Vec<Questionnaire>,
}

pub struct SignupSuccessTemplate {
    pub auth_user: Option<AuthUser>,
}

pub struct CreateQuestionnaireTemplate {
    pub auth_user: Option<AuthUser>,
}

/// The page of a company's questionnaires.
pub fn get_questionnaires_page(user: AuthUser, questionnaires: Vec<Questionnaire>) -> (t:
    QuestionnairesTemplate)
    ensures
        t.auth_user == Some(user),
        t.questionnaires == questionnaires,
{
    QuestionnairesTemplate { auth_user: Some(user), questionnaires }
}

/// The questionnaire creation page.
pub fn get_create_questionnaire_page(user: AuthUser) -> (t: CreateQuestionnaireTemplate)
    ensures
        t.auth_user == Some(user),
{
    CreateQuestionnaireTemplate { auth_user: Some(user) }
}

/// The page shown after a questionnaire was deleted.
pub fn delete_questionnaire_page() -> (t: SignupSuccessTemplate)
    ensures
        t.auth_user is None,
{
    SignupSuccessTemplate { auth_user: None }
}

} // verus!
