use scai_tips::{
    register_paper, set_author_address, AdminConfig, ErrorCode, Identity, Paper, RegisterPaper,
    SetAuthorAddress, MAX_DOI_LEN, MAX_TITLE_LEN,
};

fn paper_key(n: u8) -> Identity {
    let mut bytes = [0u8; 32];
    bytes[5] = n;
    Identity::new(bytes)
}

fn sample_paper() -> Paper {
    Paper {
        doi: "10.1/xyz".to_string(),
        title: "Title".to_string(),
        author_sol_address: Identity::unset(),
        uploader_sol_address: paper_key(8),
        total_tips: 0,
        tip_count: 0,
        uploader: paper_key(9),
        bump: 251,
    }
}

fn admins_of(keys: &[u8]) -> AdminConfig {
    AdminConfig { admins: keys.iter().map(|n| paper_key(*n)).collect(), bump: 3 }
}

fn binding(paper: Paper, admins: &[u8], signer: u8) -> SetAuthorAddress {
    SetAuthorAddress { paper, admin_config: admins_of(admins), admin: paper_key(signer) }
}

fn try_register(doi: &str, title: &str) -> Result<(), ErrorCode> {
    let mut ctx = RegisterPaper { paper: None, uploader: paper_key(9) };
    let res = register_paper(&mut ctx, doi.to_string(), title.to_string(), paper_key(8), 1);
    assert_eq!(res.is_ok(), ctx.paper.is_some());
    res
}

#[test]
fn the_limits_are_200_and_500() {
    assert_eq!(MAX_DOI_LEN, 200);
    assert_eq!(MAX_TITLE_LEN, 500);
}

#[test]
fn register_creates_a_fresh_record() {
    let u = paper_key(9);
    let mut ctx = RegisterPaper { paper: None, uploader: u };
    let res = register_paper(&mut ctx, "10.1/xyz".to_string(), "Title".to_string(), u, 251);
    assert_eq!(res, Ok(()));
    assert_eq!(
        ctx.paper,
        Some(Paper {
            doi: "10.1/xyz".to_string(),
            title: "Title".to_string(),
            author_sol_address: Identity::unset(),
            uploader_sol_address: u,
            total_tips: 0,
            tip_count: 0,
            uploader: u,
            bump: 251,
        })
    );
    assert_eq!(ctx.uploader, u);
}

#[test]
fn register_attributes_to_the_address_given_and_remembers_the_signer() {
    let mut ctx = RegisterPaper { paper: None, uploader: paper_key(9) };
    let doi = "10.1/xyz".to_string();
    let res = register_paper(&mut ctx, doi, "Title".to_string(), paper_key(8), 251);
    assert_eq!(res, Ok(()));
    assert_eq!(ctx.paper, Some(sample_paper()));
}

#[test]
fn register_twice_under_one_doi_is_refused() {
    let mut ctx = RegisterPaper { paper: None, uploader: paper_key(9) };
    assert_eq!(
        register_paper(&mut ctx, "10.1/xyz".to_string(), "Title".to_string(), paper_key(8), 251),
        Ok(())
    );
    ctx.uploader = paper_key(7);
    let before = ctx.clone();
    assert_eq!(
        register_paper(&mut ctx, "10.1/xyz".to_string(), "Another".to_string(), paper_key(6), 2),
        Err(ErrorCode::RecordAlreadyExists)
    );
    assert_eq!(ctx, before);
    assert_eq!(ctx.paper, Some(sample_paper()));
}

#[test]
fn register_on_an_occupied_place_is_refused_before_the_texts_are_looked_at() {
    let mut ctx = RegisterPaper { paper: Some(sample_paper()), uploader: paper_key(9) };
    assert_eq!(
        register_paper(&mut ctx, String::new(), String::new(), paper_key(8), 1),
        Err(ErrorCode::RecordAlreadyExists)
    );
    assert_eq!(ctx.paper, Some(sample_paper()));
}

#[test]
fn register_refuses_an_empty_doi() {
    assert_eq!(try_register("", "Title"), Err(ErrorCode::InvalidDoi));
    assert_eq!(try_register("", ""), Err(ErrorCode::InvalidDoi));
}

#[test]
fn register_refuses_a_long_doi() {
    assert_eq!(try_register(&"d".repeat(200), "Title"), Ok(()));
    assert_eq!(try_register(&"d".repeat(201), "Title"), Err(ErrorCode::DoiTooLong));
    assert_eq!(try_register(&"d".repeat(201), ""), Err(ErrorCode::DoiTooLong));
    assert_eq!(try_register(&"d".repeat(5000), "Title"), Err(ErrorCode::DoiTooLong));
}

#[test]
fn register_refuses_an_empty_title() {
    assert_eq!(try_register("10.1/xyz", ""), Err(ErrorCode::InvalidTitle));
    assert_eq!(try_register("d", "t"), Ok(()));
}

#[test]
fn register_refuses_a_long_title() {
    assert_eq!(try_register("10.1/xyz", &"t".repeat(500)), Ok(()));
    assert_eq!(try_register("10.1/xyz", &"t".repeat(501)), Err(ErrorCode::TitleTooLong));
}

#[test]
fn register_measures_texts_in_bytes() {
    // 'é' takes two bytes, '論' three, '𝄞' four.
    assert_eq!(try_register(&"é".repeat(100), "Title"), Ok(()));
    assert_eq!(try_register(&"é".repeat(101), "Title"), Err(ErrorCode::DoiTooLong));
    assert_eq!(try_register(&"𝄞".repeat(50), "Title"), Ok(()));
    assert_eq!(try_register(&"𝄞".repeat(51), "Title"), Err(ErrorCode::DoiTooLong));
    assert_eq!(try_register("10.1/xyz", &"論".repeat(166)), Ok(()));
    assert_eq!(try_register("10.1/xyz", &"論".repeat(167)), Err(ErrorCode::TitleTooLong));
}

#[test]
fn set_author_address_binds_the_address() {
    let mut ctx = binding(sample_paper(), &[1, 2], 2);
    assert_eq!(set_author_address(&mut ctx, paper_key(4)), Ok(()));
    assert_eq!(ctx.paper, Paper { author_sol_address: paper_key(4), ..sample_paper() });
    assert_eq!(ctx.admin_config, admins_of(&[1, 2]));
    assert_eq!(ctx.admin, paper_key(2));
}

#[test]
fn set_author_address_by_a_stranger_is_unauthorized() {
    let mut ctx = binding(sample_paper(), &[1, 2], 3);
    let before = ctx.clone();
    assert_eq!(set_author_address(&mut ctx, paper_key(4)), Err(ErrorCode::Unauthorized));
    assert_eq!(ctx, before);
    assert_eq!(set_author_address(&mut ctx, Identity::unset()), Err(ErrorCode::Unauthorized));
    assert_eq!(ctx, before);
}

#[test]
fn set_author_address_refuses_the_unset_address() {
    let bound = Paper { author_sol_address: paper_key(4), ..sample_paper() };
    let mut ctx = binding(bound.clone(), &[1], 1);
    assert_eq!(set_author_address(&mut ctx, Identity::unset()), Err(ErrorCode::InvalidAddress));
    let zeros = Identity::new([0u8; 32]);
    assert_eq!(set_author_address(&mut ctx, zeros), Err(ErrorCode::InvalidAddress));
    assert_eq!(ctx.paper, bound);
}

#[test]
fn the_last_binding_wins() {
    let mut ctx = binding(sample_paper(), &[1, 2], 1);
    assert_eq!(set_author_address(&mut ctx, paper_key(4)), Ok(()));
    assert_eq!(ctx.paper.author_sol_address, paper_key(4));
    ctx.admin = paper_key(2);
    assert_eq!(set_author_address(&mut ctx, paper_key(5)), Ok(()));
    assert_eq!(ctx.paper.author_sol_address, paper_key(5));
    ctx.admin = paper_key(3);
    assert_eq!(set_author_address(&mut ctx, paper_key(6)), Err(ErrorCode::Unauthorized));
    assert_eq!(ctx.paper.author_sol_address, paper_key(5));
    ctx.admin = paper_key(1);
    assert_eq!(set_author_address(&mut ctx, Identity::unset()), Err(ErrorCode::InvalidAddress));
    assert_eq!(ctx.paper.author_sol_address, paper_key(5));
    assert_eq!(set_author_address(&mut ctx, paper_key(5)), Ok(()));
    assert_eq!(set_author_address(&mut ctx, paper_key(4)), Ok(()));
    assert_eq!(ctx.paper, Paper { author_sol_address: paper_key(4), ..sample_paper() });
}

#[test]
fn set_author_address_leaves_the_counters_alone() {
    let tipped = Paper { total_tips: 77, tip_count: 3, ..sample_paper() };
    let mut ctx = binding(tipped.clone(), &[1], 1);
    assert_eq!(set_author_address(&mut ctx, paper_key(4)), Ok(()));
    assert_eq!(ctx.paper, Paper { author_sol_address: paper_key(4), ..tipped });
}
