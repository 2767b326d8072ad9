//! Plain records and enumerations of the service that the client passes on as
//! they are.
use vstd::prelude::*;
use vstd::string::*;
use crate::item::Entry;
use crate::json::JsonMap;
use crate::types::{ElementCategoryId, PredefinedCategory, ShortId, DateTime, ZKObjectID, ID, UUID};
use crate::util::Text;

verus! {

/// Sort direction
#[derive(Debug)]
pub enum SortDirection {
    /// Ascending
    Asc,
    /// Descending
    Desc,
}

/// Role of a user in a list, a workspace or an organization
#[derive(Debug)]
pub enum RoleID {
    /// owner of a list
    ListOwner,
    /// administrator of a list
    ListAdmin,
    /// user of a list
    ListUser,
    /// user of a list who may only comment
    CommentOnlyListUser,
    /// user of a list who may only read
    ReadOnlyListUser,
    /// owner of a workspace
    WorkspaceOwner,
    /// user of a workspace
    WorkspaceUser,
    /// administrator of a workspace
    WorkspaceAdmin,
    /// user of a workspace who may only comment
    CommentOnlyWorkspaceUser,
    /// user of a workspace who may only read
    ReadOnlyWorkspaceUser,
    /// owner of an organization
    OrganizationOwner,
    /// user of an organization
    OrganizationUser,
}

/// Service through which a user logs in
#[derive(Debug)]
pub enum LoginProvider {
    /// the service itself
    Local,
    /// Facebook
    Facebook,
    /// Google
    Google,
    /// Github
    Github,
    /// Slack
    Slack,
    /// Trello
    Trello,
}

/// Scope of an access
#[derive(Debug)]
pub enum AccessType {
    /// an organization
    Organization,
    /// a workspace
    Workspace,
    /// a list
    List,
    /// a project
    Project,
}

/// Operating system of a mobile device
#[derive(Debug)]
pub enum DeviceOperatingSystem {
    /// Android
    Android,
    /// iOS
    #[allow(non_camel_case_types)]
    iOS,
}

/// Keys of a filter
#[derive(Debug)]
pub enum FilterKeys {
    /// text
    Text,
    /// lower bound of a number
    NumberFrom,
    /// upper bound of a number
    NumberTo,
    /// kind of date
    DateType,
    /// lower bound of a date
    DateFrom,
    /// upper bound of a date
    DateTo,
    /// state of a checkbox
    Checked,
    /// categories
    FilterCategories,
    /// persons
    FilterPersons,
    /// reference
    FilterReference,
    /// level in a hierarchy
    Level,
}

/// Group of an element category
#[derive(Debug)]
pub enum ElementCategoryGroup {
    /// control
    Control,
}

/// Activity filter type
#[derive(PartialEq, Eq, Structural, Debug)]
pub enum ActivityFilter {
    /// All activities (no filter)
    All,
    /// System messages
    SystemMessages,
    /// Comments
    Comments,
    /// Deleted
    Deleted,
}

/// Type of activity
#[derive(PartialEq, Eq, Structural, Debug)]
pub enum ActivityType {
    /// Comment
    Comment,
    /// resource was created
    ResourceCreated,
    /// resource was updated
    ResourceUpdated,
    /// resource was deprecated
    ResourceDeprecated,
    /// resource was imported
    ResourceImported,
    /// resource was copied
    ResourceCopied,
    /// resource was restored
    ResourceRestored,
    /// bulk operation in list
    BulkOperationInList,
    /// resource was deleted
    ResourceDeleted,
}

/// Where activity occurred
#[derive(PartialEq, Eq, Structural, Debug)]
pub enum ActivityCreatedIn {
    /// in workspace
    Workspace,
    /// list
    List,
    /// list entry (item)
    ListEntry,
    /// list element (field)
    ListElement,
}

/// Activity type for bulk action
#[derive(PartialEq, Eq, Structural, Debug)]
pub enum ActivityBulkAction {
    /// add value
    Add,
    /// set value
    SetValue,
    /// remove value
    Remove,
    /// replace value
    Replace,
}

/// Selection of changed data
#[derive(Debug)]
pub enum FromTo {
    /// Value before change
    From,
    /// Value after change
    To,
}

/// Role of a background
#[derive(PartialEq, Eq, Structural, Debug)]
pub enum BackgroundRole {
    /// default of the user
    UserDefault,
}

/// Kind of background
#[derive(PartialEq, Eq, Structural, Debug)]
pub enum BackgroundType {
    /// color set by an administrator
    AdminColor,
    /// image set by an administrator
    AdminImage,
    /// texture set by an administrator
    AdminTexture,
    /// image of a user
    UserImage,
    /// image of a workspace
    WorkspaceImage,
    /// image of a list
    ListImage,
    /// theme set by an administrator
    AdminThemes,
}

/// Theme of a background
#[derive(PartialEq, Eq, Structural, Debug)]
pub enum BackgroundTheme {
    /// dark
    Dark,
    /// light
    Light,
    /// tron
    Tron,
    /// dark and transparent
    DarkTransparent,
    /// light and transparent
    LightTransparent,
    /// matrix
    Matrix,
    /// iron man
    IronMan,
}

/// How a background image is laid out
#[derive(PartialEq, Eq, Structural, Debug)]
pub enum BackgroundStyle {
    /// stretched over the area
    Cover,
    /// repeated
    Tile,
}

/// Filter expression term
#[derive(Debug)]
pub enum FilterTermModus {
    /// empty field
    IsEmpty,
    /// non-empty field
    IsNotEmpty,
    /// field contains text
    Contains,
    /// field does not contain text
    NotContains,
    /// field equals text
    Equals,
    /// field does not equal text
    NotEquals,
    /// field starts with text
    StartsWith,
    /// field does not start with text
    NotStartsWith,
    /// field ends with text
    EndsWith,
    /// field does not end with text
    NotEndsWith,
    /// field has value within range
    InRange,
    /// field value is not within range
    NotInRange,
    /// field is greater or equal to value
    GreaterOrEqual,
    /// field is less than or equal to value
    LessOrEqual,
}

/// Date expression term
#[derive(PartialEq, Eq, Structural, Debug)]
pub enum DateFilterTermModus {
    /// any date
    Any,
    /// this year
    ThisYear,
    /// this month
    ThisMonth,
    /// this week
    ThisWeek,
    /// yesterday
    Yesterday,
    /// today
    Today,
    /// tomorrow
    Tomorrow,
    /// next week
    NextWeek,
    /// next month
    NextMonth,
    /// next year
    NextYear,
    /// a given range
    Custom,
    /// last week
    LastWeek,
    /// last month
    LastMonth,
    /// last year
    LastYear,
    /// no date
    Empty,
    /// some date
    NotEmpty,
}

/// Who may see a list
#[derive(PartialEq, Eq, Structural, Debug)]
pub enum ListVisibility {
    /// the members of the list
    ListMembersOnly,
    /// the members of the list and of its workspace
    ListMembersAndWorkspaceMembers,
}

/// What a notification is about
#[derive(Debug)]
pub enum NotificationType {
    /// a person was added
    PersonAdded,
    /// a list was shared
    ListShare,
    /// a workspace was shared
    WorkspaceShare,
    /// a subscription
    Subscription,
    /// a reminder
    Reminder,
    /// a mention
    Mention,
}

/// Webhook trigger
#[derive(PartialEq, Eq, Structural, Debug)]
pub enum WebhookTriggerType {
    /// an entry
    Entry,
    /// an activity
    Activity,
    /// a notification
    Notification,
    /// a system message
    SystemMessage,
    /// a comment
    Comment,
    /// an element
    Element,
}

/// Sort order for filtered query
#[derive(Debug)]
pub struct OrderBy {
    /// Column name
    pub column: Option<String>,
    /// Sort direction
    pub direction: SortDirection,
}

/// Data that changed
#[derive(Debug)]
pub struct ActivityChangedData {
    /// the bulk action that changed it
    pub bulk_action: ActivityBulkAction,
}

/// Value of date from or to
#[derive(Debug)]
pub struct DateValue {
    /// the date
    pub date: Option<String>,
    /// the end of the range, if it is one
    pub end_date: Option<String>,
    /// whether the date has a time
    pub has_time: bool,
    /// length of the range, in words
    pub duration: Option<String>,
}

/// Element of a new activity
#[derive(Debug)]
pub struct NewActivityElement {
    /// element name
    pub name: String,
    /// field type
    pub element_category: ElementCategoryId,
}

/// new comment
#[derive(Debug)]
pub struct NewComment {
    /// comment text
    pub message: String,
}

/// Background theme and style
#[derive(Debug)]
pub struct Background {
    /// object id
    pub id: ID,
    /// object short id
    pub short_id: ShortId,
    /// object uuid
    pub uuid: UUID,
    /// role of the background
    pub role: BackgroundRole,
    /// kind of background
    pub kind: BackgroundType,
    /// id of background target. target can be a user, list, or a workspace
    pub target_id: ID,
    /// file associated with this background
    pub file_id: ShortId,
    /// background color, in hex
    pub color: String,
    /// theme
    pub theme: BackgroundTheme,
    /// layout
    pub style: BackgroundStyle,
    /// description
    pub description: String,
    /// reference link
    pub link: String,
    /// shortId of preview image file
    pub preview_file_short_id: ShortId,
}

impl ZKObjectID for Background {
    open spec fn id_of(&self) -> ID {
        self.id
    }

    open spec fn uuid_of(&self) -> Seq<char> {
        self.uuid@
    }

    fn get_id(&self) -> (r: ID) {
        self.id
    }

    fn get_uuid(&self) -> (r: &UUID) {
        &self.uuid
    }
}

/// item in a checklist
#[derive(Debug)]
pub struct ChecklistItem {
    /// true if item is checked
    pub checked: bool,
    /// checklist item text
    pub text: String,
}

/// Checklist field
#[derive(Debug)]
pub struct Checklist {
    /// checklist uuid
    pub uuid: Option<UUID>,
    /// checklist name
    pub name: String,
    /// The content
    pub items: Vec<ChecklistItem>,
    /// if true, checked item should be hidden in display
    pub should_checked_items_be_hidden: bool,
}

/// deleted item reference
#[derive(Debug)]
pub struct DeleteListEntryDetail {
    /// object id
    pub id: ID,
    /// object uuid
    pub uuid: UUID,
    /// object short id
    pub short_id: ShortId,
}

impl ZKObjectID for DeleteListEntryDetail {
    open spec fn id_of(&self) -> ID {
        self.id
    }

    open spec fn uuid_of(&self) -> Seq<char> {
        self.uuid@
    }

    fn get_id(&self) -> (r: ID) {
        self.id
    }

    fn get_uuid(&self) -> (r: &UUID) {
        &self.uuid
    }
}

/// Response from delete entry
#[derive(Debug)]
pub struct DeleteListEntryResponse {
    /// what was done
    pub action: String,
    /// the entry it was done to
    pub list_entry: DeleteListEntryDetail,
}

/// prototype of a list
#[derive(Debug)]
pub struct ListPrototype {
    /// list name
    pub name: String,
}

/// The ids that a notification refers to
#[derive(Debug)]
pub struct MinNotification {
    /// object id
    pub id: ID,
    /// object short id
    pub short_id: ShortId,
    /// object uuid
    pub uuid: UUID,
    /// list
    pub list_id: ID,
    /// workspace
    pub workspace_id: ID,
    /// entry
    pub list_entry_id: ID,
    /// element
    pub element_id: ID,
    /// activity
    pub activity_id: ID,
}

/// Webhook definition
#[derive(Debug)]
pub struct Webhook {
    /// object id
    pub id: ID,
    /// object short id
    pub short_id: ShortId,
    /// object uuid
    pub uuid: UUID,
    /// what fires the webhook
    pub trigger_type: WebhookTriggerType,
    /// user that the webhook belongs to
    pub user_id: ID,
    /// workspace it is restricted to
    pub workspace_id: Option<ID>,
    /// list it is restricted to
    pub list_id: Option<ID>,
    /// entry it is restricted to
    pub list_entry_id: Option<ID>,
    /// address that is called
    pub url: String,
    /// provider
    pub provider: Option<String>,
    /// locale of the messages
    pub locale: String,
    /// element it is restricted to
    pub element_id: Option<ID>,
}

impl ZKObjectID for Webhook {
    open spec fn id_of(&self) -> ID {
        self.id
    }

    open spec fn uuid_of(&self) -> Seq<char> {
        self.uuid@
    }

    fn get_id(&self) -> (r: ID) {
        self.id
    }

    fn get_uuid(&self) -> (r: &UUID) {
        &self.uuid
    }
}

/// Parameter for creating a new webhook
#[derive(Debug)]
pub struct NewWebhook {
    /// what fires the webhook
    pub trigger_type: WebhookTriggerType,
    /// address that is called
    pub url: String,
    /// restrict webhook to this workspace
    pub workspace_id: Option<ID>,
    /// restrict webhook to this list
    pub list_id: Option<ID>,
    /// restrict webhook to this item
    pub list_entry_id: Option<ID>,
    /// restrict webhook to this element
    pub element_id: Option<ID>,
    /// locale of the messages
    pub locale: String,
}

/// Application OAuth client configuration
#[derive(Debug)]
pub struct OAuthClient {
    /// name of your app
    pub client_name: String,
    /// website of app, Optional
    pub client_url: Option<String>,
    /// OAuth 2.0 Authorization code grant redirect URI
    pub redirect_uri: String,
}

/// OAuth response data
#[derive(Debug)]
pub struct OAuthResponse {
    /// id of the client
    pub client_id: String,
    /// secret of the client
    pub client_secret: String,
}

/// Lists and workspaces that two users share
#[derive(Debug)]
pub struct SharedAccesses {
    /// lists
    pub list_ids: Vec<ID>,
    /// workspaces
    pub workspace_ids: Vec<ID>,
}

/// Metadata about label/choice fields
#[derive(Debug)]
pub struct ElementDataCategories {
    /// whether a choice can be made up where one is set
    pub allow_inline_creation: bool,
    /// whether the field takes several choices
    pub multiple: bool,
    /// the choices
    pub predefined_categories: Vec<PredefinedCategory>,
}

/// filtered view response data
#[derive(Debug)]
pub struct FilterCountData {
    /// total number of items returned
    pub total: u64,
    /// number of filtered items
    pub filtered_total: u64,
    /// all other members of the response
    pub fields: JsonMap,
}

/// Response returned from get_entries_for_list_view
#[derive(Debug)]
pub struct GetEntriesViewResponse {
    /// number of filtered items returned
    pub count_data: FilterCountData,
    /// per group counts (todo, done, etc.)
    pub count_data_per_group: Vec<FilterCountData>,
    /// entries returned
    pub list_entries: Vec<Entry>,
}

/// User access type and role
#[derive(Debug)]
pub struct Access {
    /// object id
    pub id: Option<ID>,
    /// object short id
    pub short_id: Option<ShortId>,
    /// object uuid
    pub uuid: Option<UUID>,
    /// scope of access
    pub access_type: AccessType,
    /// user that has the access
    pub user_id: Option<ID>,
    /// workspace that it is to
    pub workspace_id: Option<ID>,
    /// list that it is to
    pub list_id: Option<ID>,
    /// organization that it is to
    pub organization_id: Option<ID>,
    /// Access role
    pub role_id: RoleID,
    /// when the access was given
    pub created_at: Option<DateTime>,
}

/// Metadata about field data type
#[derive(Debug)]
pub struct ElementCategory {
    /// the kind of field
    pub id: ElementCategoryId,
    /// object short id
    pub short_id: ShortId,
    /// object uuid
    pub uuid: UUID,
    /// Human-readable name
    pub name: String,
    /// group of the kind
    pub group: ElementCategoryGroup,
    /// Template for human-readable name of an element with this category
    pub display_name: String,
    /// unused
    pub placeholder_schema: String,
    /// unused
    pub container: bool,
    /// unused
    pub listable: bool,
    /// unused
    pub filterable: bool,
    /// keys by which values of this kind are filtered
    pub filter_keys: Vec<String>,
    /// Entry key by which to sort values of this element category
    pub sort_key: String,
    /// whether values of this kind are searched
    pub searchable: bool,
    /// whether values of this kind never change
    pub is_static: bool,
    /// least width of a column of this kind
    pub min_width: String,
    /// width of a column of this kind
    pub width: String,
    /// greatest width of a column of this kind
    pub max_width: String,
    /// whether the width is fixed
    pub is_width_fixed: bool,
    /// Whether elements of this category can be changed through the "Set" bulk action
    pub can_set: bool,
    /// Whether elements of this category can be changed through the "Add" bulk action
    pub can_add: bool,
    /// Whether elements of this category can be changed through the "Remove" bulk action
    pub can_remove: bool,
    /// Whether elements of this category can be changed through the "Replace" bulk action
    pub can_replace: bool,
    /// Definition of the business data of an element with this category
    pub business_data_definition: serde_json::Value,
    /// Defaults for an element's business data fields
    pub business_data_defaults: serde_json::Value,
    /// Definition of the element data of an element with this category
    pub element_data_definition: serde_json::Value,
    /// Defaults for an element's element data fields
    pub element_data_defaults: serde_json::Value,
    /// The timestamp at which this element category was created
    pub created_at: DateTime,
}

/// user email info
#[derive(Debug)]
pub struct Email {
    /// email object id
    pub id: ID,
    /// email object short id
    pub short_id: ShortId,
    /// email object uuid
    pub uuid: UUID,
    /// email address
    pub email: String,
    /// whether this is the primary email
    pub is_primary: bool,
    /// date created
    pub created_at: DateTime,
    /// date updated
    pub updated_at: DateTime,
    /// date deprecated
    pub deprecated_at: Option<DateTime>,
    /// whether email has been verified
    pub is_verified: bool,
}

impl ZKObjectID for Email {
    open spec fn id_of(&self) -> ID {
        self.id
    }

    open spec fn uuid_of(&self) -> Seq<char> {
        self.uuid@
    }

    fn get_id(&self) -> (r: ID) {
        self.id
    }

    fn get_uuid(&self) -> (r: &UUID) {
        &self.uuid
    }
}

/// File attachment
#[derive(Debug)]
pub struct File {
    /// object id
    pub id: ID,
    /// object short id
    pub short_id: ShortId,
    /// object uuid
    pub uuid: UUID,
    /// file name
    pub file_name: String,
    /// file size
    pub size: Option<i64>,
    /// file mime type
    pub mime_type: Option<String>,
    /// image flag
    pub is_image: Option<bool>,
    /// key of the file in the store
    pub s3_key: Option<String>,
    /// file url
    pub file_url: Option<String>,
    /// crop parameters
    pub crop_params: serde_json::Value,
    /// date created
    pub created_at: DateTime,
    /// date updated
    pub updated_at: DateTime,
    /// date deprecated
    pub deprecated_at: Option<DateTime>,
    /// user that uploaded
    pub uploader_id: ID,
    /// containing list
    pub list_id: ID,
    /// field id
    pub element_id: ID,
    /// queries
    pub cached_queries: serde_json::Value,
    /// error during import
    pub import_error: Option<String>,
    /// file provider: link for url type, None for uploads
    pub provider: Option<String>,
    /// what is known of the content, such as format, height and width
    pub metadata: Option<serde_json::Value>,
}

impl ZKObjectID for File {
    open spec fn id_of(&self) -> ID {
        self.id
    }

    open spec fn uuid_of(&self) -> Seq<char> {
        self.uuid@
    }

    fn get_id(&self) -> (r: ID) {
        self.id
    }

    fn get_uuid(&self) -> (r: &UUID) {
        &self.uuid
    }
}

/// Tag of a resource
#[derive(Debug)]
pub struct ResourceTag {
    /// object uuid
    pub uuid: UUID,
    /// the tag
    pub tag: String,
    /// kind of application that set it
    pub app_type: String,
    /// whether the tag marks the owner
    pub is_owner: bool,
    /// user that set it
    pub created_by: ID,
    /// when it was set
    pub created_at: DateTime,
}

/// Original and new value
#[derive(Debug)]
pub struct ChangedValue<T> {
    /// value before change
    pub value_from: Option<T>,
    /// value after change
    pub value_to: Option<T>,
}

impl<T> ChangedValue<T> {
    /// The value before or after the change.
    pub fn get(&self, ft: FromTo) -> (r: &Option<T>)
        ensures
            *r == (match ft {
                FromTo::From => self.value_from,
                FromTo::To => self.value_to,
            }),
    {
        match ft {
            FromTo::From => &self.value_from,
            FromTo::To => &self.value_to,
        }
    }
}

/// Set of changed values
#[derive(Debug)]
pub struct ChangedArray<T> {
    /// Values before change
    pub value_from: Vec<T>,
    /// values after change
    pub value_to: Vec<T>,
    /// values before change, in string representation
    pub value_from_as_strings: Vec<String>,
    /// values after change, in string representation
    pub value_to_as_strings: Vec<String>,
}

impl<T> ChangedArray<T> {
    /// The values before or after the change.
    pub fn get(&self, ft: FromTo) -> (r: &Vec<T>)
        ensures
            *r == (match ft {
                FromTo::From => self.value_from,
                FromTo::To => self.value_to,
            }),
    {
        match ft {
            FromTo::From => &self.value_from,
            FromTo::To => &self.value_to,
        }
    }

    /// The values before or after the change, in string representation.
    pub fn as_strings(&self, ft: FromTo) -> (r: &Vec<String>)
        ensures
            *r == (match ft {
                FromTo::From => self.value_from_as_strings,
                FromTo::To => self.value_to_as_strings,
            }),
    {
        match ft {
            FromTo::From => &self.value_from_as_strings,
            FromTo::To => &self.value_to_as_strings,
        }
    }
}

/// The text of a value that may be absent: empty where it is.
pub fn opt_to_string<T: Text>(v: &Option<T>) -> (r: String)
    ensures
        r@ == (match v {
            Some(x) => x.text(),
            None => Seq::empty(),
        }),
{
    match v {
        Some(x) => String::from_str(x.as_text()),
        None => String::new(),
    }
}

/// The value of a flag that a record leaves out.
pub fn default_bool() -> (r: bool)
    ensures
        !r,
{
    false
}

/// The value of a text that a record leaves out.
pub fn empty_string() -> (r: String)
    ensures
        r@.len() == 0,
{
    String::new()
}

} // verus!
