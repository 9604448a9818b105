//! Records that services above a connection exchange with apps.

use vstd::prelude::*;

verus! {

/// What a service that sends to another account proves its right to do so with.
#[derive(Clone, Copy, PartialEq, Eq, Debug, Structural)]
pub enum UserBasedSendAuthorizationKind {
    Story,
    AccessKey,
    Group,
    UnrestrictedUnauthenticatedAccess,
}

/// A number that stands for no kind of authorization.
#[derive(Clone, Copy, PartialEq, Eq, Debug, Structural)]
pub struct UnknownAuthorizationKind {
    pub input: u8,
}

impl UserBasedSendAuthorizationKind {
    /// The number by which apps know the kind.
    pub open spec fn number(self) -> u8 {
        match self {
            UserBasedSendAuthorizationKind::Story => 0,
            UserBasedSendAuthorizationKind::AccessKey => 1,
            UserBasedSendAuthorizationKind::Group => 2,
            UserBasedSendAuthorizationKind::UnrestrictedUnauthenticatedAccess => 3,
        }
    }

    /// The kind that `value` stands for.
    pub fn try_from(value: u8) -> (kind: Result<
        UserBasedSendAuthorizationKind,
        UnknownAuthorizationKind,
    >)
        ensures
            kind is Ok <==> value <= 3,
            value == 0 ==> kind == Ok::<_, UnknownAuthorizationKind>(
                UserBasedSendAuthorizationKind::Story,
            ),
            value == 1 ==> kind == Ok::<_, UnknownAuthorizationKind>(
                UserBasedSendAuthorizationKind::AccessKey,
            ),
            value == 2 ==> kind == Ok::<_, UnknownAuthorizationKind>(
                UserBasedSendAuthorizationKind::Group,
            ),
            value == 3 ==> kind == Ok::<_, UnknownAuthorizationKind>(
                UserBasedSendAuthorizationKind::UnrestrictedUnauthenticatedAccess,
            ),
            match kind {
                Ok(k) => k.number() == value,
                Err(e) => e.input == value,
            },
    {
        match value {
            0 => Ok(UserBasedSendAuthorizationKind::Story),
            1 => Ok(UserBasedSendAuthorizationKind::AccessKey),
            2 => Ok(UserBasedSendAuthorizationKind::Group),
            3 => Ok(UserBasedSendAuthorizationKind::UnrestrictedUnauthenticatedAccess),
            _ => Err(UnknownAuthorizationKind { input: value }),
        }
    }
}

/// What another account publishes to start a session with.
pub struct PreKeysResponse<K, B> {
    pub identity_key: K,
    pub pre_key_bundles: Vec<B>,
}

/// No two kinds have the same number, and the numbers are those below four in the order of the
/// kinds.
pub proof fn law_kinds_have_their_own_numbers(
    one: UserBasedSendAuthorizationKind,
    other: UserBasedSendAuthorizationKind,
)
    ensures
        one.number() == other.number() ==> one == other,
        one.number() < 4,
        UserBasedSendAuthorizationKind::Story.number() == 0,
        UserBasedSendAuthorizationKind::Story.number()
            < UserBasedSendAuthorizationKind::AccessKey.number()
            < UserBasedSendAuthorizationKind::Group.number()
            < UserBasedSendAuthorizationKind::UnrestrictedUnauthenticatedAccess.number(),
{
}

} // verus!
