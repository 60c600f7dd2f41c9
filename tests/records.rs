use creator_economy::constants::{DEFAULT_EARLY_SUPPORTER_LIMIT, DEFAULT_EARLY_SUPPORTER_RATE, DEFAULT_PLATFORM_FEE_RATE};
use creator_economy::errors::CreatorEconomyError;
use creator_economy::instructions::{
    create_creator_profile, initialize_platform, publish_content, CreateCreatorProfile,
    InitializePlatform, PublishContent,
};
use creator_economy::state::{Content, CreatorProfile, Platform, Pubkey, SupporterEarnings};

fn key(b: u8) -> Pubkey {
    Pubkey { bytes: [b; 32] }
}

fn blank_platform() -> Platform {
    Platform {
        authority: key(0),
        total_content_count: 0,
        early_supporter_limit: 0,
        early_supporter_rate: 0,
        platform_fee_rate: 0,
        bump: 0,
    }
}

fn blank_profile() -> CreatorProfile {
    CreatorProfile { creator: key(0), content_count: 0, total_earnings: 0, created_at: 0, bump: 0 }
}

fn blank_content() -> Content {
    Content {
        content_id: 0,
        creator: key(0),
        title: String::new(),
        description: String::new(),
        total_tips: 0,
        tip_count: 0,
        early_supporters: Vec::new(),
        created_at: 0,
        bump: 0,
    }
}

#[test]
fn initialize_with_defaults() {
    let mut ctx = InitializePlatform { authority: key(9), platform: blank_platform(), platform_bump: 251 };
    let r = initialize_platform(
        &mut ctx,
        DEFAULT_EARLY_SUPPORTER_LIMIT,
        DEFAULT_EARLY_SUPPORTER_RATE,
        DEFAULT_PLATFORM_FEE_RATE,
    );
    assert_eq!(r, Ok(()));
    assert_eq!(
        ctx.platform,
        Platform {
            authority: key(9),
            total_content_count: 0,
            early_supporter_limit: 10,
            early_supporter_rate: 1000,
            platform_fee_rate: 200,
            bump: 251,
        }
    );
}

#[test]
fn initialize_rejects_bad_rates() {
    for (es, fee) in [(10_000u16, 0u16), (0, 10_000), (6_000, 4_000), (9_999, 1)] {
        let mut ctx = InitializePlatform { authority: key(9), platform: blank_platform(), platform_bump: 1 };
        let before = ctx;
        assert_eq!(initialize_platform(&mut ctx, 10, es, fee), Err(CreatorEconomyError::InvalidFeeRate));
        assert_eq!(ctx, before);
    }
    let mut ctx = InitializePlatform { authority: key(9), platform: blank_platform(), platform_bump: 1 };
    assert_eq!(initialize_platform(&mut ctx, 10, 5_000, 4_999), Ok(()));
}

#[test]
fn create_profile_fills_record() {
    let mut ctx = CreateCreatorProfile { creator: key(4), creator_profile: blank_profile(), creator_profile_bump: 250 };
    create_creator_profile(&mut ctx, 1_650_000_000);
    assert_eq!(
        ctx.creator_profile,
        CreatorProfile { creator: key(4), content_count: 0, total_earnings: 0, created_at: 1_650_000_000, bump: 250 }
    );
}

fn publish_ctx() -> PublishContent {
    let mut platform = blank_platform();
    platform.total_content_count = 7;
    let mut profile = blank_profile();
    profile.creator = key(4);
    profile.content_count = 2;
    PublishContent { creator: key(4), creator_profile: profile, content: blank_content(), platform, content_bump: 249 }
}

#[test]
fn publish_assigns_next_id_and_counts() {
    let mut ctx = publish_ctx();
    let r = publish_content(&mut ctx, "Title".to_string(), "Body text".to_string(), 1_700_000_123);
    assert_eq!(r, Ok(()));
    assert_eq!(ctx.content.content_id, 7);
    assert_eq!(ctx.content.creator, key(4));
    assert_eq!(ctx.content.title, "Title");
    assert_eq!(ctx.content.description, "Body text");
    assert_eq!(ctx.content.total_tips, 0);
    assert_eq!(ctx.content.tip_count, 0);
    assert!(ctx.content.early_supporters.is_empty());
    assert_eq!(ctx.content.created_at, 1_700_000_123);
    assert_eq!(ctx.content.bump, 249);
    assert_eq!(ctx.platform.total_content_count, 8);
    assert_eq!(ctx.creator_profile.content_count, 3);
}

#[test]
fn publish_length_limits_are_in_characters() {
    let mut ctx = publish_ctx();
    assert_eq!(publish_content(&mut ctx, "a".repeat(100), "d".repeat(500), 0), Ok(()));

    let mut ctx = publish_ctx();
    let before = ctx.clone();
    assert_eq!(publish_content(&mut ctx, "a".repeat(101), String::new(), 0), Err(CreatorEconomyError::TitleTooLong));
    assert_eq!(ctx, before);
    assert_eq!(publish_content(&mut ctx, "中".repeat(101), String::new(), 0), Err(CreatorEconomyError::TitleTooLong));
    assert_eq!(
        publish_content(&mut ctx, "a".repeat(101), "d".repeat(501), 0),
        Err(CreatorEconomyError::TitleTooLong)
    );
    assert_eq!(
        publish_content(&mut ctx, String::new(), "d".repeat(501), 0),
        Err(CreatorEconomyError::DescriptionTooLong)
    );
    assert_eq!(
        publish_content(&mut ctx, "中".repeat(34), "文".repeat(501), 0),
        Err(CreatorEconomyError::DescriptionTooLong)
    );
    assert_eq!(ctx, before);

    // Limits count characters, not UTF-8 bytes.
    let mut ctx = publish_ctx();
    assert_eq!(publish_content(&mut ctx, "中".repeat(100), "文".repeat(500), 0), Ok(()));
    assert_eq!(ctx.content.title, "中".repeat(100));
    let mut ctx = publish_ctx();
    assert_eq!(publish_content(&mut ctx, "中".repeat(34), String::new(), 0), Ok(()));
    let mut ctx = publish_ctx();
    ctx.platform.total_content_count = u64::MAX;
    assert_eq!(
        publish_content(&mut ctx, "中".repeat(50), String::new(), 0),
        Err(CreatorEconomyError::ArithmeticOverflow)
    );
}

#[test]
fn publish_counter_overflow_is_rejected() {
    let mut ctx = publish_ctx();
    ctx.platform.total_content_count = u64::MAX;
    let before = ctx.clone();
    assert_eq!(publish_content(&mut ctx, "t".to_string(), "d".to_string(), 0), Err(CreatorEconomyError::ArithmeticOverflow));
    assert_eq!(ctx, before);

    let mut ctx = publish_ctx();
    ctx.creator_profile.content_count = u32::MAX;
    assert_eq!(publish_content(&mut ctx, "t".to_string(), "d".to_string(), 0), Err(CreatorEconomyError::ArithmeticOverflow));
}

#[test]
fn record_sizes() {
    assert_eq!(Platform::LEN, 54);
    assert_eq!(CreatorProfile::LEN, 61);
    assert_eq!(SupporterEarnings::LEN, 58);
    assert_eq!(Content::space(0, 0, 0), 81);
    assert_eq!(Content::space(100, 500, 10), 1001);
}

#[test]
fn unused_error_variant_exists() {
    assert_ne!(CreatorEconomyError::EarlySupporterSlotsFull, CreatorEconomyError::ArithmeticOverflow);
}
