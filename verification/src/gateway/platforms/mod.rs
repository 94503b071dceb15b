//! Platform-specific message handling for the IM gateway.
pub mod weixin;
pub mod weixin_media;
pub mod weixin_auth;
pub mod wecom;
pub mod feishu;
pub mod whatsapp;
