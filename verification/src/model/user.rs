//! Everything related to users.
//!
//! Contains the three different kinds of users; [PrivateUser], [CurrentUser] and [PublicUser].
//!
//! - [PrivateUser]: contains all available information about the current user authenticated to the API, when the
//!   application has been granted the `user-read-private`-scope.
//! - [CurrentUser]: contains all non-private information about the current user authenticated to the API, when the
//!   application has been granted the `user-read-email`-scope, but *not* the `user-read-private`-scope.
//! - [PublicUser]: contains all public information about a user.
//!
//! Additionally, there is the [User] enum that encompasses all three kinds of users.
//!
//! # User equality
//!
//! Two users are considered equal when their Spotify IDs are the same.

use std::borrow::Cow;

use vstd::prelude::*;
use vstd::std_specs::convert::FromSpecImpl;
use vstd::std_specs::convert::TryFromSpecImpl;

use super::debug_text;
use super::id::Id;
use super::id::IdTrait;
use super::id::UserId;
use super::object_type::TypeUser;
use super::CountryCode;
use super::ExternalUrls;
use super::Image;
use crate::error::ConversionError;

verus! {

/// Access to the fields every user has.
pub(crate) trait CommonFields {
    spec fn spec_common_fields(&self) -> CommonUserFields;

    fn common_fields(&self) -> (r: &CommonUserFields)
        ensures
            *r == self.spec_common_fields(),
    ;
}

/// Access to the fields only the current user has.
pub(crate) trait CurrentFields {
    spec fn spec_current_fields(&self) -> CurrentUserFields;

    fn current_fields(&self) -> (r: &CurrentUserFields)
        ensures
            *r == self.spec_current_fields(),
    ;
}

/// Access to the fields only the current private user has.
pub(crate) trait PrivateFields {
    spec fn spec_private_fields(&self) -> PrivateUserFields;

    fn private_fields(&self) -> (r: &PrivateUserFields)
        ensures
            *r == self.spec_private_fields(),
    ;
}

/// This struct covers all the possible user responses from Spotify's API. It converts into a [User], depending on
/// which fields are set.
#[derive(Debug, Clone, PartialEq, Eq)]
pub struct UserObject {
    /// Fields available in every user.
    pub common: CommonUserFields,
    /// Fields only in the current user.
    pub current: Option<CurrentUserFields>,
    /// Fields only in the current private user.
    pub private: Option<PrivateUserFields>,
}

/// The fields every user has.
#[derive(Debug, Clone, PartialEq, Eq)]
pub struct CommonUserFields {
    pub display_name: Option<String>,
    pub external_urls: ExternalUrls,
    pub followers: Followers,
    pub id: Id<'static, UserId>,
    pub images: Vec<Image>,
    pub item_type: TypeUser,
}

/// The fields only the current user has.
#[derive(Debug, Clone, PartialEq, Eq)]
pub struct CurrentUserFields {
    pub email: String,
}

/// The fields only the current private user has.
#[derive(Debug, Clone, PartialEq, Eq)]
pub struct PrivateUserFields {
    pub country: CountryCode,
    pub explicit_content: ExplicitContent,
    pub product: String,
}

/// Information about a user's followers.
#[derive(Debug, Clone, Copy, PartialEq, Eq, Structural)]
pub struct Followers {
    pub total: u32,
}

/// Information about a user's explicit content settings.
#[derive(Debug, Clone, Copy, PartialEq, Eq, Structural)]
pub struct ExplicitContent {
    /// When `true`, indicates that explicit content should not be played.
    pub filter_enabled: bool,
    /// When `true`, indicates that the explicit content setting is locked and can't be changed by the user.
    pub filter_locked: bool,
}

/// Functions for retrieving information that is common to every user type.
pub trait CommonUserInformation: crate::private::Sealed {
    /// The user's display name if available.
    spec fn spec_display_name(&self) -> Option<Seq<char>>;

    /// The external URLs for the user.
    spec fn spec_external_urls(&self) -> ExternalUrls;

    /// Information about the user's followers.
    spec fn spec_followers(&self) -> Followers;

    /// The user's ID.
    spec fn spec_id(&self) -> Id<'static, UserId>;

    /// The user's images.
    spec fn spec_images(&self) -> Seq<Image>;

    /// The user's display name if available.
    fn display_name(&self) -> (r: Option<&str>)
        ensures
            match (r, self.spec_display_name()) {
                (Some(name), Some(expected)) => name@ == expected,
                (None, None) => true,
                _ => false,
            },
    ;

    /// The external URLs for the user.
    fn external_urls(&self) -> (r: &ExternalUrls)
        ensures
            *r == self.spec_external_urls(),
    ;

    /// Information about the user's followers.
    fn followers(&self) -> (r: Followers)
        ensures
            r == self.spec_followers(),
    ;

    /// The user's ID, borrowing from the user.
    fn id(&self) -> (r: Id<'_, UserId>)
        ensures
            r.text() == self.spec_id().text(),
            r.kind() == self.spec_id().kind(),
            r.borrows(),
    ;

    /// The user's images.
    fn images(&self) -> (r: &[Image])
        ensures
            r@ == self.spec_images(),
    ;
}

/// Functions for retrieving information only in the current user.
pub trait CurrentUserInformation: crate::private::Sealed {
    /// The user's email.
    spec fn spec_email(&self) -> Seq<char>;

    /// The user's email.
    fn email(&self) -> (r: &str)
        ensures
            r@ == self.spec_email(),
    ;
}

/// Functions for retrieving information only in the current private user.
pub trait PrivateUserInformation: crate::private::Sealed {
    /// The user's country.
    spec fn spec_country(&self) -> CountryCode;

    /// The user's explicit content settings.
    spec fn spec_explicit_content(&self) -> ExplicitContent;

    /// The user's subscription level.
    spec fn spec_product(&self) -> Seq<char>;

    /// The user's country.
    fn country(&self) -> (r: CountryCode)
        ensures
            r == self.spec_country(),
    ;

    /// The user's explicit content settings.
    fn explicit_content(&self) -> (r: ExplicitContent)
        ensures
            r == self.spec_explicit_content(),
    ;

    /// The user's subscription level.
    fn product(&self) -> (r: &str)
        ensures
            r@ == self.spec_product(),
    ;
}

impl<T> CommonUserInformation for T where T: CommonFields + crate::private::Sealed {
    closed spec fn spec_display_name(&self) -> Option<Seq<char>> {
        super::spec_opt_str(self.spec_common_fields().display_name)
    }

    closed spec fn spec_external_urls(&self) -> ExternalUrls {
        self.spec_common_fields().external_urls
    }

    closed spec fn spec_followers(&self) -> Followers {
        self.spec_common_fields().followers
    }

    closed spec fn spec_id(&self) -> Id<'static, UserId> {
        self.spec_common_fields().id
    }

    closed spec fn spec_images(&self) -> Seq<Image> {
        self.spec_common_fields().images@
    }

    fn display_name(&self) -> (r: Option<&str>) {
        match &self.common_fields().display_name {
            Some(name) => Some(name.as_str()),
            None => None,
        }
    }

    fn external_urls(&self) -> (r: &ExternalUrls) {
        &self.common_fields().external_urls
    }

    fn followers(&self) -> (r: Followers) {
        self.common_fields().followers
    }

    fn id(&self) -> (r: Id<'_, UserId>) {
        self.common_fields().id.as_borrowed()
    }

    fn images(&self) -> (r: &[Image]) {
        self.common_fields().images.as_slice()
    }
}

impl<T> CurrentUserInformation for T where T: CurrentFields + crate::private::Sealed {
    closed spec fn spec_email(&self) -> Seq<char> {
        self.spec_current_fields().email@
    }

    fn email(&self) -> (r: &str) {
        self.current_fields().email.as_str()
    }
}

impl<T> PrivateUserInformation for T where T: PrivateFields + crate::private::Sealed {
    closed spec fn spec_country(&self) -> CountryCode {
        self.spec_private_fields().country
    }

    closed spec fn spec_explicit_content(&self) -> ExplicitContent {
        self.spec_private_fields().explicit_content
    }

    closed spec fn spec_product(&self) -> Seq<char> {
        self.spec_private_fields().product@
    }

    fn country(&self) -> (r: CountryCode) {
        self.private_fields().country
    }

    fn explicit_content(&self) -> (r: ExplicitContent) {
        self.private_fields().explicit_content
    }

    fn product(&self) -> (r: &str) {
        self.private_fields().product.as_str()
    }
}

/// An enum that encompasses all user types.
#[derive(Debug, Clone, PartialEq, Eq)]
pub enum User {
    Private(PrivateUser),
    Current(CurrentUser),
    Public(PublicUser),
}

/// Private information about the current user. Contains [private information](self::PrivateUserInformation), in
/// addition to all [common](self::CommonUserInformation) and [current](self::CurrentUserInformation) user information
/// about the user.
#[derive(Debug, Clone)]
pub struct PrivateUser {
    common: CommonUserFields,
    current: CurrentUserFields,
    private: PrivateUserFields,
}

/// Public information about the current user. Contains all [common](self::CommonUserInformation) and
/// [current](self::CurrentUserInformation) user information about the user.
#[derive(Debug, Clone)]
pub struct CurrentUser {
    common: CommonUserFields,
    current: CurrentUserFields,
}

/// Public information about a user. Contains only the information [common to every user](self::CommonUserInformation).
#[derive(Debug, Clone)]
pub struct PublicUser {
    common: CommonUserFields,
}

impl UserObject {
    /// The fields every user has.
    pub closed spec fn spec_common(&self) -> CommonUserFields {
        self.common
    }

    /// The fields only the current user has, if set.
    pub closed spec fn spec_current(&self) -> Option<CurrentUserFields> {
        self.current
    }

    /// The fields only the current private user has, if set.
    pub closed spec fn spec_private(&self) -> Option<PrivateUserFields> {
        self.private
    }
}

impl PrivateUser {
    /// The fields every user has.
    pub closed spec fn spec_common(&self) -> CommonUserFields {
        self.common
    }

    /// The fields only the current user has.
    pub closed spec fn spec_current(&self) -> CurrentUserFields {
        self.current
    }

    /// The fields only the current private user has.
    pub closed spec fn spec_private(&self) -> PrivateUserFields {
        self.private
    }
}

impl CurrentUser {
    /// The fields every user has.
    pub closed spec fn spec_common(&self) -> CommonUserFields {
        self.common
    }

    /// The fields only the current user has.
    pub closed spec fn spec_current(&self) -> CurrentUserFields {
        self.current
    }
}

impl PublicUser {
    /// The fields every user has.
    pub closed spec fn spec_common(&self) -> CommonUserFields {
        self.common
    }
}

impl crate::private::Sealed for PrivateUser {}

impl crate::private::Sealed for CurrentUser {}

impl crate::private::Sealed for PublicUser {}

impl CommonFields for PrivateUser {
    closed spec fn spec_common_fields(&self) -> CommonUserFields {
        self.common
    }

    fn common_fields(&self) -> (r: &CommonUserFields) {
        &self.common
    }
}

impl CommonFields for CurrentUser {
    closed spec fn spec_common_fields(&self) -> CommonUserFields {
        self.common
    }

    fn common_fields(&self) -> (r: &CommonUserFields) {
        &self.common
    }
}

impl CommonFields for PublicUser {
    closed spec fn spec_common_fields(&self) -> CommonUserFields {
        self.common
    }

    fn common_fields(&self) -> (r: &CommonUserFields) {
        &self.common
    }
}

impl CurrentFields for PrivateUser {
    closed spec fn spec_current_fields(&self) -> CurrentUserFields {
        self.current
    }

    fn current_fields(&self) -> (r: &CurrentUserFields) {
        &self.current
    }
}

impl CurrentFields for CurrentUser {
    closed spec fn spec_current_fields(&self) -> CurrentUserFields {
        self.current
    }

    fn current_fields(&self) -> (r: &CurrentUserFields) {
        &self.current
    }
}

impl PrivateFields for PrivateUser {
    closed spec fn spec_private_fields(&self) -> PrivateUserFields {
        self.private
    }

    fn private_fields(&self) -> (r: &PrivateUserFields) {
        &self.private
    }
}

/// Users are equal when their IDs are.
impl PartialEq<PrivateUser> for PrivateUser {
    fn eq(&self, other: &PrivateUser) -> (r: bool) {
        self.id() == other.id()
    }
}

impl vstd::std_specs::cmp::PartialEqSpecImpl<PrivateUser> for PrivateUser {
    open spec fn obeys_eq_spec() -> bool {
        true
    }

    open spec fn eq_spec(&self, other: &PrivateUser) -> bool {
        self.spec_id().text() == other.spec_id().text() && self.spec_id().kind() == other.spec_id().kind()
    }
}

/// Users are equal when their IDs are.
impl PartialEq<CurrentUser> for PrivateUser {
    fn eq(&self, other: &CurrentUser) -> (r: bool) {
        self.id() == other.id()
    }
}

impl vstd::std_specs::cmp::PartialEqSpecImpl<CurrentUser> for PrivateUser {
    open spec fn obeys_eq_spec() -> bool {
        true
    }

    open spec fn eq_spec(&self, other: &CurrentUser) -> bool {
        self.spec_id().text() == other.spec_id().text() && self.spec_id().kind() == other.spec_id().kind()
    }
}

/// Users are equal when their IDs are.
impl PartialEq<PublicUser> for PrivateUser {
    fn eq(&self, other: &PublicUser) -> (r: bool) {
        self.id() == other.id()
    }
}

impl vstd::std_specs::cmp::PartialEqSpecImpl<PublicUser> for PrivateUser {
    open spec fn obeys_eq_spec() -> bool {
        true
    }

    open spec fn eq_spec(&self, other: &PublicUser) -> bool {
        self.spec_id().text() == other.spec_id().text() && self.spec_id().kind() == other.spec_id().kind()
    }
}

/// Users are equal when their IDs are.
impl PartialEq<PrivateUser> for CurrentUser {
    fn eq(&self, other: &PrivateUser) -> (r: bool) {
        self.id() == other.id()
    }
}

impl vstd::std_specs::cmp::PartialEqSpecImpl<PrivateUser> for CurrentUser {
    open spec fn obeys_eq_spec() -> bool {
        true
    }

    open spec fn eq_spec(&self, other: &PrivateUser) -> bool {
        self.spec_id().text() == other.spec_id().text() && self.spec_id().kind() == other.spec_id().kind()
    }
}

/// Users are equal when their IDs are.
impl PartialEq<CurrentUser> for CurrentUser {
    fn eq(&self, other: &CurrentUser) -> (r: bool) {
        self.id() == other.id()
    }
}

impl vstd::std_specs::cmp::PartialEqSpecImpl<CurrentUser> for CurrentUser {
    open spec fn obeys_eq_spec() -> bool {
        true
    }

    open spec fn eq_spec(&self, other: &CurrentUser) -> bool {
        self.spec_id().text() == other.spec_id().text() && self.spec_id().kind() == other.spec_id().kind()
    }
}

/// Users are equal when their IDs are.
impl PartialEq<PublicUser> for CurrentUser {
    fn eq(&self, other: &PublicUser) -> (r: bool) {
        self.id() == other.id()
    }
}

impl vstd::std_specs::cmp::PartialEqSpecImpl<PublicUser> for CurrentUser {
    open spec fn obeys_eq_spec() -> bool {
        true
    }

    open spec fn eq_spec(&self, other: &PublicUser) -> bool {
        self.spec_id().text() == other.spec_id().text() && self.spec_id().kind() == other.spec_id().kind()
    }
}

/// Users are equal when their IDs are.
impl PartialEq<PrivateUser> for PublicUser {
    fn eq(&self, other: &PrivateUser) -> (r: bool) {
        self.id() == other.id()
    }
}

impl vstd::std_specs::cmp::PartialEqSpecImpl<PrivateUser> for PublicUser {
    open spec fn obeys_eq_spec() -> bool {
        true
    }

    open spec fn eq_spec(&self, other: &PrivateUser) -> bool {
        self.spec_id().text() == other.spec_id().text() && self.spec_id().kind() == other.spec_id().kind()
    }
}

/// Users are equal when their IDs are.
impl PartialEq<CurrentUser> for PublicUser {
    fn eq(&self, other: &CurrentUser) -> (r: bool) {
        self.id() == other.id()
    }
}

impl vstd::std_specs::cmp::PartialEqSpecImpl<CurrentUser> for PublicUser {
    open spec fn obeys_eq_spec() -> bool {
        true
    }

    open spec fn eq_spec(&self, other: &CurrentUser) -> bool {
        self.spec_id().text() == other.spec_id().text() && self.spec_id().kind() == other.spec_id().kind()
    }
}

/// Users are equal when their IDs are.
impl PartialEq<PublicUser> for PublicUser {
    fn eq(&self, other: &PublicUser) -> (r: bool) {
        self.id() == other.id()
    }
}

impl vstd::std_specs::cmp::PartialEqSpecImpl<PublicUser> for PublicUser {
    open spec fn obeys_eq_spec() -> bool {
        true
    }

    open spec fn eq_spec(&self, other: &PublicUser) -> bool {
        self.spec_id().text() == other.spec_id().text() && self.spec_id().kind() == other.spec_id().kind()
    }
}

impl Eq for PrivateUser {}

impl Eq for CurrentUser {}

impl Eq for PublicUser {}

impl TryFrom<UserObject> for User {
    type Error = ConversionError;

    fn try_from(obj: UserObject) -> (r: Result<Self, Self::Error>)
        ensures
            match (obj.spec_current(), obj.spec_private()) {
                (Some(current), Some(private)) => r matches Ok(User::Private(u)) && u.spec_common() == obj.spec_common()
                    && u.spec_current() == current && u.spec_private() == private,
                (Some(current), None) => r matches Ok(User::Current(u)) && u.spec_common() == obj.spec_common()
                    && u.spec_current() == current,
                (None, None) => r matches Ok(User::Public(u)) && u.spec_common() == obj.spec_common(),
                (None, Some(_)) => r is Err,
            },
    {
        match (obj.current, obj.private) {
            (Some(current), Some(private)) => Ok(User::Private(PrivateUser { common: obj.common, current, private })),
            (Some(current), None) => Ok(User::Current(CurrentUser { common: obj.common, current })),
            (None, None) => Ok(User::Public(PublicUser { common: obj.common })),
            (current, private) => {
                let mut message = "impossible case trying to convert UserObject into User: current user fields is ".to_owned();
                message.append(debug_text(&current).as_str());
                message.append(" while private user fields is ");
                message.append(debug_text(&private).as_str());
                Err(ConversionError::new(Cow::Owned(message)))
            },
        }
    }
}

/// The error's message holds the debug text of the fields, which is not modelled, so the generic conversion
/// specification is not claimed; the contract of `try_from` states the outcome.
impl TryFromSpecImpl<UserObject> for User {
    open spec fn obeys_try_from_spec() -> bool {
        false
    }

    open spec fn try_from_spec(v: UserObject) -> Result<Self, Self::Error> {
        arbitrary()
    }
}

impl From<PrivateUser> for User {
    fn from(private: PrivateUser) -> (r: Self)
        ensures
            r == User::Private(private),
    {
        User::Private(private)
    }
}

impl FromSpecImpl<PrivateUser> for User {
    open spec fn obeys_from_spec() -> bool {
        true
    }

    open spec fn from_spec(v: PrivateUser) -> Self {
        User::Private(v)
    }
}

impl From<CurrentUser> for User {
    fn from(current: CurrentUser) -> (r: Self)
        ensures
            r == User::Current(current),
    {
        User::Current(current)
    }
}

impl FromSpecImpl<CurrentUser> for User {
    open spec fn obeys_from_spec() -> bool {
        true
    }

    open spec fn from_spec(v: CurrentUser) -> Self {
        User::Current(v)
    }
}

impl From<PublicUser> for User {
    fn from(public: PublicUser) -> (r: Self)
        ensures
            r == User::Public(public),
    {
        User::Public(public)
    }
}

impl FromSpecImpl<PublicUser> for User {
    open spec fn obeys_from_spec() -> bool {
        true
    }

    open spec fn from_spec(v: PublicUser) -> Self {
        User::Public(v)
    }
}

impl TryFrom<User> for PrivateUser {
    type Error = ConversionError;

    fn try_from(user: User) -> (r: Result<Self, Self::Error>)
        ensures
            match user {
                User::Private(private) => r == Ok::<PrivateUser, ConversionError>(private),
                User::Current(_) => r matches Err(e) && e.reason() == "attempt to convert current user into private user"@,
                User::Public(_) => r matches Err(e) && e.reason() == "attempt to convert public user into private user"@,
            },
    {
        match user {
            User::Private(private) => Ok(private),
            User::Current(_) => {
                proof {
                    reveal_strlit("attempt to convert current user into private user");
                }
                Err(ConversionError::new(Cow::Borrowed("attempt to convert current user into private user")))
            },
            User::Public(_) => {
                proof {
                    reveal_strlit("attempt to convert public user into private user");
                }
                Err(ConversionError::new(Cow::Borrowed("attempt to convert public user into private user")))
            },
        }
    }
}

impl TryFromSpecImpl<User> for PrivateUser {
    open spec fn obeys_try_from_spec() -> bool {
        true
    }

    closed spec fn try_from_spec(v: User) -> Result<Self, Self::Error> {
        match v {
            User::Private(private) => Ok(private),
            User::Current(_) => Err(ConversionError(Cow::Borrowed("attempt to convert current user into private user"))),
            User::Public(_) => Err(ConversionError(Cow::Borrowed("attempt to convert public user into private user"))),
        }
    }
}

impl TryFrom<UserObject> for PrivateUser {
    type Error = ConversionError;

    fn try_from(obj: UserObject) -> (r: Result<Self, Self::Error>)
        ensures
            match (obj.spec_current(), obj.spec_private()) {
                (Some(current), Some(private)) => r matches Ok(u) && u.spec_common() == obj.spec_common()
                    && u.spec_current() == current && u.spec_private() == private,
                _ => r is Err,
            },
    {
        match (obj.current, obj.private) {
            (Some(current), Some(private)) => Ok(PrivateUser { common: obj.common, current, private }),
            (current, private) => {
                let mut message = "attempt to convert non-private user object into private user (current user fields is ".to_owned();
                message.append(debug_text(&current).as_str());
                message.append(", private user fields is ");
                message.append(debug_text(&private).as_str());
                message.append(")");
                Err(ConversionError::new(Cow::Owned(message)))
            },
        }
    }
}

/// The error's message holds the debug text of the fields, which is not modelled, so the generic conversion
/// specification is not claimed; the contract of `try_from` states the outcome.
impl TryFromSpecImpl<UserObject> for PrivateUser {
    open spec fn obeys_try_from_spec() -> bool {
        false
    }

    open spec fn try_from_spec(v: UserObject) -> Result<Self, Self::Error> {
        arbitrary()
    }
}

impl TryFrom<User> for CurrentUser {
    type Error = ConversionError;

    fn try_from(user: User) -> (r: Result<Self, Self::Error>)
        ensures
            match user {
                User::Private(private) => r matches Ok(u) && u.spec_common() == private.spec_common()
                    && u.spec_current() == private.spec_current(),
                User::Current(current) => r == Ok::<CurrentUser, ConversionError>(current),
                User::Public(_) => r matches Err(e) && e.reason() == "attempt to convert public user into current user"@,
            },
    {
        match user {
            User::Private(private) => Ok(CurrentUser { common: private.common, current: private.current }),
            User::Current(current) => Ok(current),
            User::Public(_) => {
                proof {
                    reveal_strlit("attempt to convert public user into current user");
                }
                Err(ConversionError::new(Cow::Borrowed("attempt to convert public user into current user")))
            },
        }
    }
}

impl TryFromSpecImpl<User> for CurrentUser {
    open spec fn obeys_try_from_spec() -> bool {
        true
    }

    closed spec fn try_from_spec(v: User) -> Result<Self, Self::Error> {
        match v {
            User::Private(private) => Ok(CurrentUser { common: private.common, current: private.current }),
            User::Current(current) => Ok(current),
            User::Public(_) => Err(ConversionError(Cow::Borrowed("attempt to convert public user into current user"))),
        }
    }
}

impl TryFrom<UserObject> for CurrentUser {
    type Error = ConversionError;

    fn try_from(obj: UserObject) -> (r: Result<Self, Self::Error>)
        ensures
            match obj.spec_current() {
                Some(current) => r matches Ok(u) && u.spec_common() == obj.spec_common() && u.spec_current() == current,
                None => r matches Err(e) && e.reason() == "attempt to convert public user object into current user"@,
            },
    {
        if let Some(current) = obj.current {
            Ok(CurrentUser { common: obj.common, current })
        } else {
            proof {
                reveal_strlit("attempt to convert public user object into current user");
            }
            Err(ConversionError::new(Cow::Borrowed("attempt to convert public user object into current user")))
        }
    }
}

impl TryFromSpecImpl<UserObject> for CurrentUser {
    open spec fn obeys_try_from_spec() -> bool {
        true
    }

    closed spec fn try_from_spec(v: UserObject) -> Result<Self, Self::Error> {
        match v.current {
            Some(current) => Ok(CurrentUser { common: v.common, current }),
            None => Err(ConversionError(Cow::Borrowed("attempt to convert public user object into current user"))),
        }
    }
}

impl From<User> for PublicUser {
    fn from(user: User) -> (r: Self)
        ensures
            r.spec_common() == match user {
                User::Private(private) => private.spec_common(),
                User::Current(current) => current.spec_common(),
                User::Public(public) => public.spec_common(),
            },
    {
        match user {
            User::Private(private) => PublicUser { common: private.common },
            User::Current(current) => PublicUser { common: current.common },
            User::Public(public) => public,
        }
    }
}

impl FromSpecImpl<User> for PublicUser {
    open spec fn obeys_from_spec() -> bool {
        true
    }

    closed spec fn from_spec(v: User) -> Self {
        match v {
            User::Private(private) => PublicUser { common: private.common },
            User::Current(current) => PublicUser { common: current.common },
            User::Public(public) => public,
        }
    }
}

impl From<UserObject> for PublicUser {
    fn from(obj: UserObject) -> (r: Self)
        ensures
            r.spec_common() == obj.spec_common(),
    {
        PublicUser { common: obj.common }
    }
}

impl FromSpecImpl<UserObject> for PublicUser {
    open spec fn obeys_from_spec() -> bool {
        true
    }

    closed spec fn from_spec(v: UserObject) -> Self {
        PublicUser { common: v.common }
    }
}

impl From<PrivateUser> for UserObject {
    fn from(value: PrivateUser) -> (r: Self)
        ensures
            r.spec_common() == value.spec_common(),
            r.spec_current() == Some(value.spec_current()),
            r.spec_private() == Some(value.spec_private()),
    {
        UserObject { common: value.common, current: Some(value.current), private: Some(value.private) }
    }
}

impl FromSpecImpl<PrivateUser> for UserObject {
    open spec fn obeys_from_spec() -> bool {
        true
    }

    closed spec fn from_spec(v: PrivateUser) -> Self {
        UserObject { common: v.common, current: Some(v.current), private: Some(v.private) }
    }
}

impl From<CurrentUser> for UserObject {
    fn from(value: CurrentUser) -> (r: Self)
        ensures
            r.spec_common() == value.spec_common(),
            r.spec_current() == Some(value.spec_current()),
            r.spec_private() is None,
    {
        UserObject { common: value.common, current: Some(value.current), private: None }
    }
}

impl FromSpecImpl<CurrentUser> for UserObject {
    open spec fn obeys_from_spec() -> bool {
        true
    }

    closed spec fn from_spec(v: CurrentUser) -> Self {
        UserObject { common: v.common, current: Some(v.current), private: None }
    }
}

impl From<PublicUser> for UserObject {
    fn from(value: PublicUser) -> (r: Self)
        ensures
            r.spec_common() == value.spec_common(),
            r.spec_current() is None,
            r.spec_private() is None,
    {
        UserObject { common: value.common, current: None, private: None }
    }
}

impl FromSpecImpl<PublicUser> for UserObject {
    open spec fn obeys_from_spec() -> bool {
        true
    }

    closed spec fn from_spec(v: PublicUser) -> Self {
        UserObject { common: v.common, current: None, private: None }
    }
}

} // verus!
