use quantum_launcher::accounts::AccountType;
use quantum_launcher::app_state::{AccountForm, AddAccountFieldFocus};
use quantum_launcher::form_view::{add_account_form_view, SecondBox};

fn form(t: AccountType) -> AccountForm {
    AccountForm {
        is_add_account_mode: true,
        new_account_type: t,
        new_account_username: "steve".to_string(),
        new_account_password: "pé1".to_string(),
        selected_account_type: 0,
        new_account_otp: None,
        needs_otp: false,
        show_password: false,
        login_error: None,
        add_account_field_focus: AddAccountFieldFocus::Password,
    }
}

#[test]
fn hidden_password_has_one_star_per_byte() {
    let v = add_account_form_view(&form(AccountType::ElyBy));
    match v.second {
        SecondBox::Password(p) => {
            assert_eq!(p.text, "****");
            assert_eq!(p.title, "Password [CURRENTLY TYPING HERE]");
            assert!(p.focused);
        }
        SecondBox::Info(_) => panic!("expected the password box"),
    }
    assert_eq!(v.username.title, "Username/Email");
    assert_eq!(v.username.text, "steve");
    assert!(v.otp.is_none());
}

#[test]
fn shown_password_and_focus_only_for_typed_logins() {
    let mut f = form(AccountType::Microsoft);
    f.show_password = true;
    let v = add_account_form_view(&f);
    match v.second {
        SecondBox::Password(p) => {
            assert_eq!(p.text, "pé1");
            assert_eq!(p.title, "Password");
            assert!(!p.focused);
        }
        SecondBox::Info(_) => panic!("expected the password box"),
    }
    assert_eq!(
        v.instructions,
        vec![
            "↑/↓: Select account type | Enter: Add account | Esc: Cancel".to_string(),
            "Warning: Microsoft accounts are not implemented yet - coming soon!".to_string(),
        ]
    );
}

#[test]
fn offline_form_shows_information_and_the_error() {
    let mut f = form(AccountType::Offline);
    f.login_error = Some("bad name".to_string());
    let v = add_account_form_view(&f);
    match v.second {
        SecondBox::Info(t) => assert_eq!(t, "Offline accounts use the specified username for playing"),
        SecondBox::Password(_) => panic!("expected the information box"),
    }
    assert_eq!(v.instructions.len(), 4);
    assert_eq!(v.instructions[2], "");
    assert_eq!(v.instructions[3], "Error: bad name");
}

#[test]
fn elyby_code_box_and_instruction_while_a_code_is_asked() {
    let mut f = form(AccountType::ElyBy);
    f.needs_otp = true;
    f.add_account_field_focus = AddAccountFieldFocus::Otp;
    f.new_account_otp = Some("123".to_string());
    let v = add_account_form_view(&f);
    let otp = v.otp.expect("code box");
    assert_eq!(otp.title, "OTP Code [CURRENTLY TYPING HERE]");
    assert_eq!(otp.text, "123");
    assert_eq!(v.instructions[2], "Two-factor authentication required - enter OTP code");
}
