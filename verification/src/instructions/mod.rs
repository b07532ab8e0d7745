//! The operations of the ledger, one per file.

pub mod create_campaign;
pub mod delete_campaign;
pub mod donate;
pub mod initialize;
pub mod update_campaign;
pub mod update_platform_settings;
pub mod withdraw;

pub use create_campaign::{create_campaign, try_create_campaign};
pub use delete_campaign::delete_campaign;
pub use donate::{check_donation, donate, try_donate};
pub use initialize::initialize;
pub use update_campaign::update_campaign;
pub use update_platform_settings::update_platform_settings;
pub use withdraw::{plan_withdrawal, split_fee, withdraw};
