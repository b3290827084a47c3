use vstd::prelude::*;

verus! {

/// Credentials typed into the login form.
#[derive(Debug)]
pub struct Login {
    pub username: String,
    pub password: String,
    /// The page to return to after logging in.
    pub referer: Option<String>,
}

/// The login form of the control panel.
#[derive(Debug)]
pub struct LoginForm {
    pub username: String,
    pub password: String,
}

/// A creator changing their own password.
#[derive(Debug)]
pub struct ChangePasswordSelf {
    pub current_password: String,
    pub new_password: String,
    pub confirm_new_password: String,
}

/// A publisher setting another creator's password.
#[derive(Debug)]
pub struct ChangePasswordOther {
    pub username: String,
    pub new_password: String,
}

/// A new account, as a publisher enters it.
#[derive(Debug)]
pub struct NewCreator {
    pub username: String,
    pub display_name: String,
    pub password: String,
    pub as_publisher: bool,
}

/// A request that names an account.
#[derive(Debug)]
pub struct OnlyUsername {
    pub username: String,
}

/// A request to promote or demote an account.
#[derive(Debug)]
pub struct PromoteOrDemote {
    pub username: String,
}

/// Profile fields to change; a missing one keeps its current value.
#[derive(Debug)]
pub struct UpdateProfile {
    pub display_name: Option<String>,
    pub biography: Option<String>,
}

/// A new "about us" text for the site.
#[derive(Debug)]
pub struct EditAboutUs {
    pub about_us: String,
}

/// A request that names a text.
#[derive(Debug)]
pub struct OnlyTextId {
    pub text_id: i32,
}

/// Where a client is sent after a successful request.
#[derive(Debug)]
pub struct ReturnRedirect {
    pub redirect: String,
}

/// A new text, from the control panel's editor.
#[derive(Debug)]
pub struct PublishTextForm {
    pub text_type: crate::text::TextType,
    pub title: String,
    pub leading_paragraph: String,
    pub text_body: String,
    pub tags: String,
}

/// Changes to a text, from the control panel's editor.
#[derive(Debug)]
pub struct EditTextForm {
    pub text_id: i32,
    pub title: String,
    pub leading_paragraph: String,
    pub text_body: String,
    pub tags: String,
}

/// A new biography.
#[derive(Debug)]
pub struct EditBiographyForm {
    pub biography: String,
}

/// A creator changing their own password in the control panel.
#[derive(Debug)]
pub struct EditPasswordForm {
    pub current_password: String,
    pub new_password: String,
    pub confirm_new_password: String,
}

/// A new display name.
#[derive(Debug)]
pub struct EditDisplayNameForm {
    pub display_name: String,
}

/// A message shown once on the next page: its kind (such as `success` or
/// `error`) and its text.
#[derive(Debug)]
pub struct FlashMsg {
    pub kind: String,
    pub message: String,
}

impl FlashMsg {
    pub fn success(message: &str) -> (r: FlashMsg)
        ensures
            r.kind@ == "success"@,
            r.message@ == message@,
    {
        FlashMsg { kind: "success".to_string(), message: message.to_string() }
    }

    pub fn error(message: &str) -> (r: FlashMsg)
        ensures
            r.kind@ == "error"@,
            r.message@ == message@,
    {
        FlashMsg { kind: "error".to_string(), message: message.to_string() }
    }
}

} // verus!
