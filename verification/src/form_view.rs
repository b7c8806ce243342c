//! What the add-account form shows: the titles of its boxes by focus, the
//! password as typed or masked, the one-time code box, and the
//! instructions for the chosen kind of account.

use vstd::prelude::*;
use crate::accounts::AccountType;
use crate::app_state::{AccountForm, AddAccountFieldFocus};
use crate::args::views;
use crate::text::{concat, string_push};

verus! {

/// One input box: its title, the text it shows, and whether the keys typed
/// go to it.
pub struct FieldView {
    pub title: String,
    pub text: String,
    pub focused: bool,
}

/// The box under the username: the password, or for offline accounts a
/// line of information.
pub enum SecondBox {
    Password(FieldView),
    Info(String),
}

/// The add-account form as it is drawn.
pub struct AccountFormView {
    pub username: FieldView,
    pub second: SecondBox,
    /// Shown only while a one-time code is asked for.
    pub otp: Option<FieldView>,
    pub instructions: Vec<String>,
}

/// The kinds of account whose username and password boxes take turns at
/// the keys (Tab moves between them).
pub open spec fn types_in_fields(t: AccountType) -> bool {
    t is ElyBy || t is LittleSkin
}

/// A hidden password: one `*` per byte of its UTF-8 encoding.
pub open spec fn masked(p: Seq<char>) -> Seq<char> {
    Seq::new(vstd::utf8::encode_utf8(p).len(), |i: int| '*')
}

/// The instructions under the form: two lines for the kind of account, a
/// third for ElyBy while a one-time code is asked for, and the login error
/// after an empty line.
pub open spec fn form_instructions(t: AccountType, needs_otp: bool, err: Option<Seq<char>>) -> Seq<
    Seq<char>,
> {
    let base: Seq<Seq<char>> = match t {
        AccountType::Microsoft => seq![
            "↑/↓: Select account type | Enter: Add account | Esc: Cancel"@,
            "Warning: Microsoft accounts are not implemented yet - coming soon!"@,
        ],
        AccountType::Offline => seq![
            "↑/↓: Select account type | Enter: Add offline account | Esc: Cancel"@,
            "Offline accounts use the specified username for playing"@,
        ],
        AccountType::ElyBy => seq![
            "↑/↓: Select account type | Tab: Next field | p: Toggle password visibility"@,
            "Enter: Create account | Esc: Cancel"@,
        ] + if needs_otp {
            seq!["Two-factor authentication required - enter OTP code"@]
        } else {
            Seq::empty()
        },
        AccountType::LittleSkin => seq![
            "↑/↓: Select account type | Tab: Next field | Enter: Add account | Esc: Cancel"@,
            "Warning: LittleSkin accounts are not implemented yet - coming soon!"@,
        ],
    };
    match err {
        Some(e) => base + seq![Seq::empty(), "Error: "@ + e],
        None => base,
    }
}

/// The login error's text, if there is one.
pub open spec fn error_text(e: Option<String>) -> Option<Seq<char>> {
    match e {
        Some(t) => Some(t@),
        None => None,
    }
}

/// The form as drawn from its state.
pub open spec fn form_view_of(form: AccountForm, r: AccountFormView) -> bool {
    let typing = types_in_fields(form.new_account_type);
    let user_focus = typing && form.add_account_field_focus is Username;
    let pass_focus = typing && form.add_account_field_focus is Password;
    let otp_focus = form.add_account_field_focus is Otp;
    &&& r.username.focused == user_focus
    &&& r.username.title@ == if user_focus {
        "Username/Email [CURRENTLY TYPING HERE]"@
    } else {
        "Username/Email"@
    }
    &&& r.username.text@ == form.new_account_username@
    &&& if form.new_account_type is Offline {
        r.second matches SecondBox::Info(t) && t@ == "Offline accounts use the specified username for playing"@
    } else {
        &&& r.second matches SecondBox::Password(p)
        &&& p.focused == pass_focus
        &&& p.title@ == if pass_focus { "Password [CURRENTLY TYPING HERE]"@ } else { "Password"@ }
        &&& p.text@ == if form.show_password {
            form.new_account_password@
        } else {
            masked(form.new_account_password@)
        }
    }
    &&& if form.needs_otp {
        &&& r.otp matches Some(o)
        &&& o.focused == otp_focus
        &&& o.title@ == if otp_focus { "OTP Code [CURRENTLY TYPING HERE]"@ } else { "OTP Code"@ }
        &&& o.text@ == match form.new_account_otp {
            Some(c) => c@,
            None => Seq::<char>::empty(),
        }
    } else {
        r.otp is None
    }
    &&& views(r.instructions@) == form_instructions(
        form.new_account_type,
        form.needs_otp,
        error_text(form.login_error),
    )
}

/// `p` hidden: one `*` per byte.
fn mask(p: &str) -> (r: String)
    ensures
        r@ == masked(p@),
{
    let n = p.as_bytes().len();
    let mut r = String::new();
    let mut i: usize = 0;
    while i < n
        invariant
            i <= n,
            n == vstd::utf8::encode_utf8(p@).len(),
            r@ == Seq::new(i as nat, |k: int| '*'),
        decreases n - i,
    {
        string_push(&mut r, '*');
        assert(r@ =~= Seq::new((i + 1) as nat, |k: int| '*'));
        i += 1;
    }
    assert(r@ =~= masked(p@));
    r
}

fn text_of(s: &str) -> (r: String)
    ensures
        r@ == s@,
{
    s.to_owned()
}

/// The instructions under the form (see `form_instructions`).
fn instructions(form: &AccountForm) -> (r: Vec<String>)
    ensures
        views(r@) == form_instructions(
            form.new_account_type,
            form.needs_otp,
            error_text(form.login_error),
        ),
{
    let mut v: Vec<String> = Vec::new();
    match form.new_account_type {
        AccountType::Microsoft => {
            v.push(text_of("↑/↓: Select account type | Enter: Add account | Esc: Cancel"));
            v.push(text_of("Warning: Microsoft accounts are not implemented yet - coming soon!"));
        },
        AccountType::Offline => {
            v.push(text_of("↑/↓: Select account type | Enter: Add offline account | Esc: Cancel"));
            v.push(text_of("Offline accounts use the specified username for playing"));
        },
        AccountType::ElyBy => {
            v.push(
                text_of("↑/↓: Select account type | Tab: Next field | p: Toggle password visibility"),
            );
            v.push(text_of("Enter: Create account | Esc: Cancel"));
            if form.needs_otp {
                v.push(text_of("Two-factor authentication required - enter OTP code"));
            }
        },
        AccountType::LittleSkin => {
            v.push(
                text_of("↑/↓: Select account type | Tab: Next field | Enter: Add account | Esc: Cancel"),
            );
            v.push(text_of("Warning: LittleSkin accounts are not implemented yet - coming soon!"));
        },
    }
    let ghost base = views(v@);
    if let Some(e) = &form.login_error {
        v.push(String::new());
        v.push(concat("Error: ", e.as_str()));
        assert(views(v@) =~= base + seq![Seq::<char>::empty(), "Error: "@ + e@]);
    }
    assert(views(v@) =~= form_instructions(
        form.new_account_type,
        form.needs_otp,
        error_text(form.login_error),
    ));
    v
}

/// The add-account form as it is drawn (see `form_view_of`).
pub fn add_account_form_view(form: &AccountForm) -> (r: AccountFormView)
    ensures
        form_view_of(*form, r),
{
    let typing = match form.new_account_type {
        AccountType::ElyBy | AccountType::LittleSkin => true,
        _ => false,
    };
    let user_focus = typing && matches!(form.add_account_field_focus, AddAccountFieldFocus::Username);
    let pass_focus = typing && matches!(form.add_account_field_focus, AddAccountFieldFocus::Password);
    let otp_focus = matches!(form.add_account_field_focus, AddAccountFieldFocus::Otp);
    let username = FieldView {
        title: if user_focus {
            text_of("Username/Email [CURRENTLY TYPING HERE]")
        } else {
            text_of("Username/Email")
        },
        text: form.new_account_username.clone(),
        focused: user_focus,
    };
    let second = match form.new_account_type {
        AccountType::Offline => SecondBox::Info(
            text_of("Offline accounts use the specified username for playing"),
        ),
        _ => SecondBox::Password(
            FieldView {
                title: if pass_focus {
                    text_of("Password [CURRENTLY TYPING HERE]")
                } else {
                    text_of("Password")
                },
                text: if form.show_password {
                    form.new_account_password.clone()
                } else {
                    mask(form.new_account_password.as_str())
                },
                focused: pass_focus,
            },
        ),
    };
    let otp = if form.needs_otp {
        Some(
            FieldView {
                title: if otp_focus {
                    text_of("OTP Code [CURRENTLY TYPING HERE]")
                } else {
                    text_of("OTP Code")
                },
                text: match &form.new_account_otp {
                    Some(c) => c.clone(),
                    None => String::new(),
                },
                focused: otp_focus,
            },
        )
    } else {
        None
    };
    AccountFormView { username, second, otp, instructions: instructions(form) }
}

} // verus!
