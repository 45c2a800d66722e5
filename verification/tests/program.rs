use my_first_deployment::id::{program_id, program_id_base58, PROGRAM_ID};
use my_first_deployment::program::{
    dispatch, greeting_line, initialize, try_accounts, Context, DispatchError, Initialize, Log,
};

const ID_BASE58: &str = "ZiECmSCWiJvsKRbNmBw27pyWEqEPFY4sBZ3MCnbvirH";

#[test]
fn program_id_renders_to_declared_base58() {
    assert_eq!(program_id_base58().as_str(), ID_BASE58);
}

#[test]
fn greeting_line_embeds_id_byte_for_byte() {
    let line = greeting_line(&program_id());
    assert_eq!(line.as_str(), "Greetings from: ZiECmSCWiJvsKRbNmBw27pyWEqEPFY4sBZ3MCnbvirH");
    assert_eq!(&line.as_bytes()[16..], ID_BASE58.as_bytes());
}

#[test]
fn initialize_succeeds_and_logs_one_greeting() {
    let ctx = Context { program_id: program_id(), accounts: Initialize {} };
    let mut log = Log::new();
    let r = initialize(&ctx, &mut log);
    assert!(r.is_ok());
    assert_eq!(log.len(), 1);
    assert_eq!(log.line(0).as_str(), "Greetings from: ZiECmSCWiJvsKRbNmBw27pyWEqEPFY4sBZ3MCnbvirH");
}

#[test]
fn dispatch_with_zero_accounts_succeeds() {
    let mut log = Log::new();
    let accounts: Vec<[u8; 32]> = Vec::new();
    let r = dispatch(&PROGRAM_ID, &accounts, &mut log);
    assert!(r.is_ok());
    assert_eq!(log.len(), 1);
    assert_eq!(log.line(0).as_str(), "Greetings from: ZiECmSCWiJvsKRbNmBw27pyWEqEPFY4sBZ3MCnbvirH");
}

#[test]
fn dispatch_rejects_extraneous_account_before_body_runs() {
    let mut log = Log::new();
    let accounts: Vec<[u8; 32]> = vec![[7u8; 32]];
    let r = dispatch(&PROGRAM_ID, &accounts, &mut log);
    assert_eq!(r, Err(DispatchError::UnexpectedAccount));
    // The body never ran: nothing was logged.
    assert_eq!(log.len(), 0);
}

#[test]
fn try_accounts_admits_only_the_empty_list() {
    assert!(try_accounts(&Vec::new()).is_ok());
    let one: Vec<[u8; 32]> = vec![[0u8; 32]];
    assert_eq!(try_accounts(&one).unwrap_err(), DispatchError::UnexpectedAccount);
    let two: Vec<[u8; 32]> = vec![[0u8; 32], [1u8; 32]];
    assert_eq!(try_accounts(&two).unwrap_err(), DispatchError::UnexpectedAccount);
}

#[test]
fn repeated_invocations_are_independent_successes() {
    let ctx = Context { program_id: program_id(), accounts: Initialize {} };
    let mut log = Log::new();
    for n in 0..5usize {
        assert_eq!(log.len(), n);
        let r = initialize(&ctx, &mut log);
        assert!(r.is_ok());
        assert_eq!(log.len(), n + 1);
    }
    for i in 0..5usize {
        assert_eq!(
            log.line(i).as_str(),
            "Greetings from: ZiECmSCWiJvsKRbNmBw27pyWEqEPFY4sBZ3MCnbvirH"
        );
    }
}

#[test]
fn rendering_agrees_with_the_sdk_parser() {
    // Round trip through the SDK itself: parsing the declared base58 string
    // must give back exactly the 32 bytes the crate carries.
    let parsed: anchor_lang::prelude::Pubkey = std::str::FromStr::from_str(ID_BASE58).unwrap();
    assert_eq!(parsed.to_bytes(), PROGRAM_ID);
}
