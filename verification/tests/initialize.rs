use sol_crowdfund_tutorial::entry::{greeting, initialize, Context, Initialize};
use sol_crowdfund_tutorial::id::{declared_id, ProgramId};

fn fresh_context() -> Context {
    Context {
        program_id: declared_id(),
        accounts: Initialize {},
        log: Vec::new(),
    }
}

#[test]
fn initialize_returns_success() {
    let mut ctx = fresh_context();
    let r = initialize(&mut ctx);
    assert!(r.is_ok());
}

#[test]
fn initialize_logs_declared_greeting() {
    let mut ctx = fresh_context();
    let r = initialize(&mut ctx);
    assert!(r.is_ok());
    assert_eq!(ctx.log.len(), 1);
    assert_eq!(
        ctx.log[0],
        "Greetings from: 2N6QZDfjFzCKYVJ9pELvv3S5y1KVxxDTyzDuyAdv5RaV"
    );
}

#[test]
fn repeated_invocations_equivalent() {
    let mut ctx = fresh_context();
    let r1 = initialize(&mut ctx);
    let r2 = initialize(&mut ctx);
    assert_eq!(r1, r2);
    assert!(r1.is_ok());
    assert_eq!(ctx.log.len(), 2);
    assert_eq!(ctx.log[0], ctx.log[1]);
}

#[test]
fn greeting_carries_identifier_text() {
    let id = declared_id();
    let text = greeting(&id);
    assert!(text.starts_with("Greetings from: "));
    assert_eq!(
        &text["Greetings from: ".len()..],
        "2N6QZDfjFzCKYVJ9pELvv3S5y1KVxxDTyzDuyAdv5RaV"
    );
}

#[test]
fn greeting_of_zero_address() {
    let id = ProgramId { bytes: [0u8; 32] };
    assert_eq!(
        greeting(&id),
        "Greetings from: 11111111111111111111111111111111"
    );
}

#[test]
fn declared_id_matches_rendered_pubkey() {
    let id = declared_id();
    let key = anchor_lang::prelude::Pubkey::new_from_array(id.bytes);
    assert_eq!(
        key.to_string(),
        "2N6QZDfjFzCKYVJ9pELvv3S5y1KVxxDTyzDuyAdv5RaV"
    );
}
