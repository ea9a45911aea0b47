//! Registration, login and logout.
//!
//! Each of the three is a conversation between the service's decisions and
//! the work that is done elsewhere: hashing on a worker thread, the user
//! store, the session store, the mail. The decisions are here. A step takes
//! the state of the conversation and what the last piece of work gave, and
//! says what to do next. Whoever drives the conversation does the work and
//! comes back with its result, until the step says how to answer.

use crate::constants::{email_templates, route_paths, strings};
use crate::domain::new_user::NewUser;
use crate::domain::user_email::{email_syntax_ok, is_email, UserEmail};
use crate::domain::user_password::{strong_password, SecretString, UserPassword};
use crate::routes::reply::{shown, text_of, Flash, FlashView, Level, Reply, ReplyView};
use crate::session::error::SessionError;
use crate::text::join;
use crate::user::model::{fresh_user_id, is_random_uuid, AuthError, Credentials, User};
use crate::utils::{e500, INTERNAL_SERVER_ERROR};
use vstd::prelude::*;

verus! {

/// Where to go after the login, as the query of a request gives it.
#[derive(Debug)]
pub struct NextUrl {
    pub next: Option<String>,
}

/// What a registration request carries.
#[derive(Debug)]
pub struct RegistrationForm {
    pub email: String,
    pub password: SecretString,
}

/// The login page, with the place to go to after the login, if one is given.
pub open spec fn login_url(next: Option<Seq<char>>) -> Seq<char> {
    match next {
        Some(next) => route_paths::LOGIN@ + "?next="@ + next,
        None => route_paths::LOGIN@,
    }
}

/// The place to go to after the login: the one that was asked for, else the
/// landing page.
pub open spec fn landing(next: Option<Seq<char>>) -> Seq<char> {
    match next {
        Some(next) => next,
        None => route_paths::ROOT@,
    }
}

/// What a user is told after the login.
pub open spec fn welcome_back(email: Seq<char>) -> Seq<char> {
    "Successfully logged in as "@ + email
}

/// A copy of the text, if there is one.
pub fn copy_text(text: &Option<String>) -> (copy: Option<String>)
    ensures
        text_of(copy) == text_of(*text),
{
    match text {
        Some(text) => Some(text.clone()),
        None => None,
    }
}

/// The answer that sends a user back to the login page.
pub fn back_to_login(next: &Option<String>) -> (reply: Reply)
    ensures
        reply@ == (ReplyView::Redirect { to: login_url(text_of(*next)) }),
{
    match next {
        Some(next) => {
            let to = join(route_paths::LOGIN, "?next=").concat(next.as_str());
            Reply::Redirect { to }
        },
        None => Reply::redirect(route_paths::LOGIN),
    }
}

/// The answer that sends a user on after the login.
pub fn onward(next: &Option<String>) -> (reply: Reply)
    ensures
        reply@ == (ReplyView::Redirect { to: landing(text_of(*next)) }),
{
    match next {
        Some(next) => Reply::redirect(next.as_str()),
        None => Reply::redirect(route_paths::ROOT),
    }
}

/// What a login waits for.
#[derive(Debug)]
pub enum LoginState {
    /// The credentials are being checked.
    Authenticating { next: Option<String> },
    /// The session of the user with this email is being set up.
    Establishing { email: String, next: Option<String> },
    /// The request has been answered.
    Finished,
}

/// What came back from the work that a login asked for.
#[derive(Debug)]
pub enum LoginEvent {
    /// The credentials were checked.
    Authenticated(Result<Option<User>, AuthError>),
    /// The session was set up, or could not be.
    Established(Result<(), SessionError>),
}

/// What a login asks for next.
#[derive(Debug)]
pub enum LoginAction {
    /// Check these credentials against the user store.
    Authenticate(Credentials),
    /// Log this user in: move the session to a fresh token bound to the user.
    Establish(User),
    /// Answer the request.
    Respond(Reply),
}

/// One step of a login: the state after it, a message to keep for the user,
/// and what to do next.
#[derive(Debug)]
pub struct LoginStep {
    pub state: LoginState,
    pub flash: Option<Flash>,
    pub action: LoginAction,
}

impl LoginStep {
    /// Whether the step ends the login with this answer and this message.
    pub open spec fn ends_with(self, reply: ReplyView, flash: Option<FlashView>) -> bool {
        &&& self.state is Finished
        &&& shown(self.flash) == flash
        &&& self.action matches LoginAction::Respond(r) && r@ == reply
    }

    /// Whether the step ends the login with a failure that says nothing.
    pub open spec fn fails(self) -> bool {
        self.ends_with(ReplyView::internal_error(), None)
    }
}

/// The message for credentials that were not accepted. It does not say
/// whether the email or the password was wrong.
pub open spec fn rejection() -> Option<FlashView> {
    Some(FlashView { level: Level::Error, text: strings::INVALID_CREDENTIALS@ })
}

fn finish_login(reply: Reply, flash: Option<Flash>) -> (step: LoginStep)
    ensures
        step.ends_with(reply@, shown(flash)),
{
    LoginStep { state: LoginState::Finished, flash, action: LoginAction::Respond(reply) }
}

fn reject_login(next: &Option<String>) -> (step: LoginStep)
    ensures
        step.ends_with(ReplyView::Redirect { to: login_url(text_of(*next)) }, rejection()),
{
    finish_login(
        back_to_login(next),
        Some(Flash::error(AuthError::InvalidCredentials.message().to_owned())),
    )
}

/// Starts a login. An email that is no email address is turned away before
/// any store is asked, with the answer that wrong credentials get.
pub fn login(creds: Credentials) -> (step: LoginStep)
    ensures
        email_syntax_ok(creds.email@) ==> {
            &&& step.state matches LoginState::Authenticating { next }
            &&& text_of(next) == text_of(creds.next)
            &&& step.flash is None
            &&& step.action matches LoginAction::Authenticate(asked)
            &&& asked.email@ == creds.email@
            &&& asked.password@ == creds.password@
            &&& text_of(asked.next) == text_of(creds.next)
        },
        !email_syntax_ok(creds.email@) ==> step.ends_with(
            ReplyView::Redirect { to: login_url(text_of(creds.next)) },
            rejection(),
        ),
        creds.email@.len() == 0 || !creds.email@.contains('@') ==> step.ends_with(
            ReplyView::Redirect { to: login_url(text_of(creds.next)) },
            rejection(),
        ),
{
    if is_email(creds.email.as_str()) {
        LoginStep {
            state: LoginState::Authenticating { next: copy_text(&creds.next) },
            flash: None,
            action: LoginAction::Authenticate(creds),
        }
    } else {
        reject_login(&creds.next)
    }
}

/// Takes a login one step on.
///
/// A user who was found is logged in next; nobody found is sent back to the
/// login page with a message; a failure of either store is answered with a
/// failure that says nothing. Once the session is set up the user is sent on,
/// with a message of welcome. An event that the state does not wait for ends
/// the login with a failure.
pub fn login_step(state: LoginState, event: LoginEvent) -> (step: LoginStep)
    ensures
        match (state, event) {
            (
                LoginState::Authenticating { next },
                LoginEvent::Authenticated(Ok(Some(user))),
            ) => {
                &&& step.state matches LoginState::Establishing { email, next: kept }
                &&& email@ == user.email@
                &&& text_of(kept) == text_of(next)
                &&& step.flash is None
                &&& step.action matches LoginAction::Establish(found)
                &&& found@ == user@
            },
            (LoginState::Authenticating { next }, LoginEvent::Authenticated(Ok(None))) => {
                step.ends_with(
                    ReplyView::Redirect { to: login_url(text_of(next)) },
                    rejection(),
                )
            },
            (LoginState::Establishing { email, next }, LoginEvent::Established(Ok(_))) => {
                step.ends_with(
                    ReplyView::Redirect { to: landing(text_of(next)) },
                    Some(FlashView { level: Level::Success, text: welcome_back(email@) }),
                )
            },
            _ => step.fails(),
        },
{
    match state {
        LoginState::Authenticating { next } => match event {
            LoginEvent::Authenticated(Ok(Some(user))) => LoginStep {
                state: LoginState::Establishing { email: user.email.clone(), next },
                flash: None,
                action: LoginAction::Establish(user),
            },
            LoginEvent::Authenticated(Ok(None)) => reject_login(&next),
            _ => finish_login(Reply::internal_error(), None),
        },
        LoginState::Establishing { email, next } => match event {
            LoginEvent::Established(Ok(_)) => finish_login(
                onward(&next),
                Some(Flash::success(join("Successfully logged in as ", email.as_str()))),
            ),
            _ => finish_login(Reply::internal_error(), None),
        },
        LoginState::Finished => finish_login(Reply::internal_error(), None),
    }
}

/// The answer to a logout: on to the landing page once the session is gone,
/// and a failure that says nothing where it could not be deleted.
pub fn logout(outcome: Result<(), SessionError>) -> (reply: Reply)
    ensures
        outcome is Ok ==> reply@ == (ReplyView::Redirect { to: route_paths::ROOT@ }),
        outcome is Err ==> reply@ == ReplyView::internal_error(),
{
    match outcome {
        Ok(_) => Reply::redirect(route_paths::ROOT),
        Err(_) => Reply::internal_error(),
    }
}

/// What a registration waits for.
#[derive(Debug)]
pub enum RegistrationState {
    /// The password is being hashed.
    Hashing { email: UserEmail },
    /// The user is being written to the user store.
    Inserting { email: UserEmail },
    /// The welcome mail is being sent.
    Notifying,
    /// The request has been answered.
    Finished,
}

/// What came back from the work that a registration asked for. A failure
/// comes with its text, which is for the log and for nobody else.
#[derive(Debug)]
pub enum RegistrationEvent {
    /// The password was hashed.
    Hashed(Result<String, String>),
    /// The user was written.
    Inserted(Result<(), String>),
    /// The welcome mail was sent.
    Notified(Result<(), String>),
}

/// What a registration asks for next.
#[derive(Debug)]
pub enum RegistrationAction {
    /// Hash this password, away from the threads that serve requests.
    HashPassword(UserPassword),
    /// Write this user to the user store.
    InsertUser { id: u128, email: String, password_hash: String },
    /// Send the welcome mail.
    SendWelcome { to: String, subject: &'static str, template: &'static str },
    /// Answer the request.
    Respond(Reply),
}

/// One step of a registration: the state after it, a message to keep for the
/// user, the text of a failure to write to the log, and what to do next.
#[derive(Debug)]
pub struct RegistrationStep {
    pub state: RegistrationState,
    pub flash: Option<Flash>,
    pub report: Option<String>,
    pub action: RegistrationAction,
}

impl RegistrationStep {
    /// Whether the step ends the registration with this answer and this
    /// message, and with nothing for the log.
    pub open spec fn ends_with(self, reply: ReplyView, flash: Option<FlashView>) -> bool {
        &&& self.state is Finished
        &&& shown(self.flash) == flash
        &&& self.report is None
        &&& self.action matches RegistrationAction::Respond(r) && r@ == reply
    }

    /// Whether the step sends the user back to the registration page with
    /// this text as the message.
    pub open spec fn turns_away(self, text: Seq<char>) -> bool {
        self.ends_with(
            ReplyView::Redirect { to: route_paths::REGISTER@ },
            Some(FlashView { level: Level::Error, text }),
        )
    }

    /// Whether the step ends the registration with a failure. The answer
    /// says no more than that there was one; what went wrong is for the log.
    pub open spec fn fails(self, report: Option<Seq<char>>) -> bool {
        &&& self.state is Finished
        &&& self.flash is None
        &&& text_of(self.report) == report
        &&& self.action matches RegistrationAction::Respond(r) && r@ == (ReplyView::Failure {
            status_code: INTERNAL_SERVER_ERROR,
            message: strings::INTERNAL_SERVER_ERROR@,
        })
    }
}

fn finish_registration(reply: Reply, flash: Option<Flash>) -> (step: RegistrationStep)
    ensures
        step.ends_with(reply@, shown(flash)),
{
    RegistrationStep {
        state: RegistrationState::Finished,
        flash,
        report: None,
        action: RegistrationAction::Respond(reply),
    }
}

fn turn_away(text: String) -> (step: RegistrationStep)
    ensures
        step.turns_away(text@),
{
    finish_registration(Reply::redirect(route_paths::REGISTER), Some(Flash::error(text)))
}

fn fail_registration(report: Option<String>) -> (step: RegistrationStep)
    ensures
        step.fails(text_of(report)),
{
    RegistrationStep {
        state: RegistrationState::Finished,
        flash: None,
        report,
        action: RegistrationAction::Respond(
            Reply::Failure(e500(strings::INTERNAL_SERVER_ERROR.to_owned())),
        ),
    }
}

/// Starts a registration. A form that does not pass validation sends the
/// user back to the registration page, with the reason as the message;
/// nothing is hashed or stored for it. An empty email, and one without `@`,
/// does not pass.
pub fn register(form: RegistrationForm) -> (step: RegistrationStep)
    ensures
        email_syntax_ok(form.email@) && strong_password(form.password@) ==> {
            &&& step.state matches RegistrationState::Hashing { email }
            &&& email@ == form.email@
            &&& step.flash is None
            &&& step.action matches RegistrationAction::HashPassword(password)
            &&& password@ == form.password@
        },
        !email_syntax_ok(form.email@) ==> step.turns_away(
            form.email@ + " is not a valid subscriber email."@,
        ),
        email_syntax_ok(form.email@) && !strong_password(form.password@) ==> step.turns_away(
            "Password is not a valid format."@,
        ),
        form.email@.len() == 0 || !form.email@.contains('@') ==> step.turns_away(
            form.email@ + " is not a valid subscriber email."@,
        ),
{
    match NewUser::try_from(form) {
        Ok(new_user) => RegistrationStep {
            state: RegistrationState::Hashing { email: new_user.email },
            flash: None,
            report: None,
            action: RegistrationAction::HashPassword(new_user.password),
        },
        Err(e) => turn_away(e.message()),
    }
}

/// Takes a registration one step on.
///
/// The hash goes to the user store together with the email and a fresh id;
/// once the user is stored, the user is told so and the welcome mail is sent;
/// once that is sent, the user is sent on to the landing page. Where the
/// hasher, the store or the mail fails, the registration ends with a failure
/// that tells the user nothing of the cause; the cause goes to the log. An
/// event that the state does not wait for ends the registration in the same
/// way.
pub fn register_step(state: RegistrationState, event: RegistrationEvent) -> (step:
    RegistrationStep)
    ensures
        match (state, event) {
            (RegistrationState::Hashing { email }, RegistrationEvent::Hashed(Ok(hash))) => {
                &&& step.state matches RegistrationState::Inserting { email: kept }
                &&& kept@ == email@
                &&& step.flash is None
                &&& step.report is None
                &&& step.action matches RegistrationAction::InsertUser {
                    id,
                    email: address,
                    password_hash,
                }
                &&& is_random_uuid(id)
                &&& address@ == email@
                &&& password_hash@ == hash@
            },
            (RegistrationState::Hashing { .. }, RegistrationEvent::Hashed(Err(text))) => {
                step.fails(Some(text@))
            },
            (RegistrationState::Inserting { email }, RegistrationEvent::Inserted(Ok(_))) => {
                &&& step.state is Notifying
                &&& shown(step.flash) == Some(
                    FlashView { level: Level::Success, text: strings::REGISTER_ACCOUNT_SUCCESS@ },
                )
                &&& step.report is None
                &&& step.action matches RegistrationAction::SendWelcome { to, subject, template }
                &&& to@ == email@
                &&& subject@ == strings::WELCOME_EMAIL_SUBJECT@
                &&& template@ == email_templates::EMAIL_VERIFICATION@
            },
            (RegistrationState::Inserting { .. }, RegistrationEvent::Inserted(Err(text))) => {
                step.fails(Some(text@))
            },
            (RegistrationState::Notifying, RegistrationEvent::Notified(Ok(_))) => {
                step.ends_with(ReplyView::Redirect { to: route_paths::ROOT@ }, None)
            },
            (RegistrationState::Notifying, RegistrationEvent::Notified(Err(text))) => {
                step.fails(Some(text@))
            },
            _ => step.fails(None),
        },
{
    match state {
        RegistrationState::Hashing { email } => match event {
            RegistrationEvent::Hashed(Ok(hash)) => {
                let address = email.as_ref().to_owned();
                RegistrationStep {
                    state: RegistrationState::Inserting { email },
                    flash: None,
                    report: None,
                    action: RegistrationAction::InsertUser {
                        id: fresh_user_id(),
                        email: address,
                        password_hash: hash,
                    },
                }
            },
            RegistrationEvent::Hashed(Err(text)) => fail_registration(Some(text)),
            _ => fail_registration(None),
        },
        RegistrationState::Inserting { email } => match event {
            RegistrationEvent::Inserted(Ok(_)) => RegistrationStep {
                state: RegistrationState::Notifying,
                flash: Some(Flash::success(strings::REGISTER_ACCOUNT_SUCCESS.to_owned())),
                report: None,
                action: RegistrationAction::SendWelcome {
                    to: email.as_ref().to_owned(),
                    subject: strings::WELCOME_EMAIL_SUBJECT,
                    template: email_templates::EMAIL_VERIFICATION,
                },
            },
            RegistrationEvent::Inserted(Err(text)) => fail_registration(Some(text)),
            _ => fail_registration(None),
        },
        RegistrationState::Notifying => match event {
            RegistrationEvent::Notified(Ok(_)) => finish_registration(
                Reply::redirect(route_paths::ROOT),
                None,
            ),
            RegistrationEvent::Notified(Err(text)) => fail_registration(Some(text)),
            _ => fail_registration(None),
        },
        RegistrationState::Finished => fail_registration(None),
    }
}

/// The login page.
pub fn login_page(query: NextUrl) -> (reply: Reply)
    ensures
        reply@ == (ReplyView::Page {
            template: crate::constants::html_templates::LOGIN@,
            next: text_of(query.next),
        }),
{
    Reply::Page { template: crate::constants::html_templates::LOGIN, next: query.next }
}

/// The registration page.
pub fn register_page(query: NextUrl) -> (reply: Reply)
    ensures
        reply@ == (ReplyView::Page {
            template: crate::constants::html_templates::REGISTER@,
            next: text_of(query.next),
        }),
{
    Reply::Page { template: crate::constants::html_templates::REGISTER, next: query.next }
}

} // verus!
