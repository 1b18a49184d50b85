//! Types métier purs : ils se testent sans base.

pub mod answers;
pub mod birth;
pub mod blind;
pub mod bulk;
pub mod derived;
pub mod desk;
pub mod draft;
pub mod eligibility;
pub mod facets;
pub mod limits;
pub mod ownership;
pub mod permissions;
pub mod registration;
pub mod sanitize;
pub mod sessions;
pub mod slug;
pub mod transitions;
