//! What a server of the studio protocol is known by, and whom it serves.

use vstd::prelude::*;

verus! {

/// The port that the studio client expects the server on.
pub const DEFAULT_PORT: u16 = 15881;

/// The identity of a client application, as it gives it when it connects.
#[derive(Clone, Debug, PartialEq, Eq)]
pub struct BHapticsAppInfo {
    pub id: String,
    pub name: String,
}

/// The mathematical value of a [`BHapticsAppInfo`].
pub struct BHapticsAppInfoView {
    pub id: Seq<char>,
    pub name: Seq<char>,
}

impl View for BHapticsAppInfo {
    type V = BHapticsAppInfoView;

    open spec fn view(&self) -> BHapticsAppInfoView {
        BHapticsAppInfoView { id: self.id@, name: self.name@ }
    }
}

/// The identity of a client that gave none.
pub open spec fn anonymous() -> BHapticsAppInfoView {
    BHapticsAppInfoView { id: "no-app-name"@, name: "Client"@ }
}

/// The identity that connection parameters stand for: each part as given, or
/// the anonymous one's where it was left out.
pub open spec fn identity_of(
    app_id: Option<Seq<char>>,
    app_name: Option<Seq<char>>,
) -> BHapticsAppInfoView {
    BHapticsAppInfoView {
        id: match app_id {
            Some(id) => id,
            None => anonymous().id,
        },
        name: match app_name {
            Some(name) => name,
            None => anonymous().name,
        },
    }
}

impl Default for BHapticsAppInfo {
    fn default() -> (r: BHapticsAppInfo)
        ensures
            r@ == anonymous(),
    {
        BHapticsAppInfo { id: String::from_str("no-app-name"), name: String::from_str("Client") }
    }
}

impl BHapticsAppInfo {
    /// The identity that the connection parameters `app_id` and `app_name`
    /// stand for.
    pub fn from_query(app_id: Option<String>, app_name: Option<String>) -> (r: BHapticsAppInfo)
        ensures
            r@ == identity_of(
                match app_id {
                    Some(id) => Some(id@),
                    None => None,
                },
                match app_name {
                    Some(name) => Some(name@),
                    None => None,
                },
            ),
    {
        BHapticsAppInfo {
            id: match app_id {
                Some(id) => id,
                None => String::from_str("no-app-name"),
            },
            name: match app_name {
                Some(name) => name,
                None => String::from_str("Client"),
            },
        }
    }
}

} // verus!
