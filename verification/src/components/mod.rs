//! Service components (S3, DynamoDB, CloudWatch) and the tab that holds them.
//!
//! A component reacts to key presses and actions by changing its widgets and
//! returning [`Command`]s: events to queue for the application loop, and
//! requests to AWS that the caller performs and whose results it hands back.
pub mod aws_base_component;
pub mod cloudwatch;
pub mod dynamodb;
pub mod s3;
pub mod tab;

use vstd::prelude::*;
use crate::event_managment::event::{
    ComponentActions, ComponentActionsView, CloudWatchComponentActions,
    CloudWatchComponentActionsView, DynamoDBComponentActions, DynamoDBComponentActionsView, Event,
    EventView, S3ComponentActions, S3ComponentActionsView, TabEvent, TabEventView, WidgetAction,
    WidgetActionView,
};
use crate::text::opt_text;

verus! {

/// Represents the current input focus within a component
#[derive(Debug, Clone, Copy, PartialEq, Eq, Structural)]
pub enum ComponentFocus {
    /// Focus on the left navigation area (service list/tables/buckets)
    Navigation,
    /// Focus on the input area (search/filter/command box)
    Input,
    /// Focus on the time range input box
    TimeRange,
    /// Focus on the results display area
    Results,
    /// No focus set (named `NoFocus`: the word `None` is taken by `Option`)
    NoFocus,
}

/// Work that a component or tab asks of its caller.
pub enum Command {
    /// Queue an event for the application loop.
    Send(Event),
    /// List the S3 buckets with the S3 component's client.
    ListBuckets,
    /// List the objects of a bucket under a prefix; the result is shown under `title`.
    ListObjects { bucket: String, prefix: String, title: String },
    /// Fetch the metadata of an S3 object.
    GetObjectDetails { bucket: String, key: String },
    /// List the DynamoDB tables.
    ListTables,
    /// Query a DynamoDB table by partition key and optional sort key.
    QueryTable { table: String, partition_key: String, sort_key: Option<String> },
    /// List the CloudWatch log groups in the background.
    ListLogGroups,
    /// Fetch log events in the background; the result is shown under `title`.
    FetchLogs { log_group: String, filter: String, time_range: String, title: String },
    /// Connect an S3 client for the profile and region.
    CreateS3Client { profile: String, region: String },
    /// Connect a DynamoDB client for the profile and region.
    CreateDynamoDBClient { profile: String, region: String },
    /// Connect a CloudWatch client for the profile and region.
    CreateCloudWatchClient { profile: String, region: String },
}

pub enum CommandView {
    Send(EventView),
    ListBuckets,
    ListObjects { bucket: Seq<char>, prefix: Seq<char>, title: Seq<char> },
    GetObjectDetails { bucket: Seq<char>, key: Seq<char> },
    ListTables,
    QueryTable { table: Seq<char>, partition_key: Seq<char>, sort_key: Option<Seq<char>> },
    ListLogGroups,
    FetchLogs { log_group: Seq<char>, filter: Seq<char>, time_range: Seq<char>, title: Seq<char> },
    CreateS3Client { profile: Seq<char>, region: Seq<char> },
    CreateDynamoDBClient { profile: Seq<char>, region: Seq<char> },
    CreateCloudWatchClient { profile: Seq<char>, region: Seq<char> },
}

impl View for Command {
    type V = CommandView;

    open spec fn view(&self) -> CommandView {
        match self {
            Command::Send(e) => CommandView::Send(e@),
            Command::ListBuckets => CommandView::ListBuckets,
            Command::ListObjects { bucket, prefix, title } => CommandView::ListObjects {
                bucket: bucket@,
                prefix: prefix@,
                title: title@,
            },
            Command::GetObjectDetails { bucket, key } => CommandView::GetObjectDetails {
                bucket: bucket@,
                key: key@,
            },
            Command::ListTables => CommandView::ListTables,
            Command::QueryTable { table, partition_key, sort_key } => CommandView::QueryTable {
                table: table@,
                partition_key: partition_key@,
                sort_key: opt_text(*sort_key),
            },
            Command::ListLogGroups => CommandView::ListLogGroups,
            Command::FetchLogs { log_group, filter, time_range, title } => CommandView::FetchLogs {
                log_group: log_group@,
                filter: filter@,
                time_range: time_range@,
                title: title@,
            },
            Command::CreateS3Client { profile, region } => CommandView::CreateS3Client {
                profile: profile@,
                region: region@,
            },
            Command::CreateDynamoDBClient { profile, region } => CommandView::CreateDynamoDBClient {
                profile: profile@,
                region: region@,
            },
            Command::CreateCloudWatchClient { profile, region } => CommandView::CreateCloudWatchClient {
                profile: profile@,
                region: region@,
            },
        }
    }
}

/// The views of a sequence of commands.
pub open spec fn commands_view(v: Seq<Command>) -> Seq<CommandView> {
    Seq::new(v.len(), |i: int| v[i]@)
}

/// Queue a tab event.
pub open spec fn send_tab(e: TabEventView) -> CommandView {
    CommandView::Send(EventView::Tab(e))
}

/// Queue an S3 component action.
pub open spec fn send_s3(a: S3ComponentActionsView) -> CommandView {
    send_tab(TabEventView::ComponentActions(ComponentActionsView::S3ComponentActions(a)))
}

/// Queue a DynamoDB component action.
pub open spec fn send_dynamodb(a: DynamoDBComponentActionsView) -> CommandView {
    send_tab(TabEventView::ComponentActions(ComponentActionsView::DynamoDBComponentActions(a)))
}

/// Queue a CloudWatch component action.
pub open spec fn send_cloudwatch(a: CloudWatchComponentActionsView) -> CommandView {
    send_tab(TabEventView::ComponentActions(ComponentActionsView::CloudWatchComponentActions(a)))
}

/// The command that queues an S3 component action.
pub fn s3_command(a: S3ComponentActions) -> (c: Command)
    ensures
        c@ == send_s3(a@),
{
    Command::Send(Event::Tab(TabEvent::ComponentActions(ComponentActions::S3ComponentActions(a))))
}

/// The command that queues a DynamoDB component action.
pub fn dynamodb_command(a: DynamoDBComponentActions) -> (c: Command)
    ensures
        c@ == send_dynamodb(a@),
{
    Command::Send(
        Event::Tab(TabEvent::ComponentActions(ComponentActions::DynamoDBComponentActions(a))),
    )
}

/// The command that queues a CloudWatch component action.
pub fn cloudwatch_command(a: CloudWatchComponentActions) -> (c: Command)
    ensures
        c@ == send_cloudwatch(a@),
{
    Command::Send(
        Event::Tab(TabEvent::ComponentActions(ComponentActions::CloudWatchComponentActions(a))),
    )
}

/// The command that queues a widget action for the tab.
pub fn widget_command(a: WidgetAction) -> (c: Command)
    ensures
        c@ == send_tab(TabEventView::WidgetActions(a@)),
{
    Command::Send(Event::Tab(TabEvent::WidgetActions(a)))
}

/// A command list with one element.
pub fn one_command(c: Command) -> (v: Vec<Command>)
    ensures
        commands_view(v@) == seq![c@],
{
    let mut v = Vec::new();
    v.push(c);
    assert(commands_view(v@) =~= seq![c@]);
    v
}

/// The view of an optional widget action sent as an S3 action.
pub open spec fn widget_as_s3(a: Option<WidgetActionView>) -> Seq<CommandView> {
    match a {
        Some(w) => seq![send_s3(S3ComponentActionsView::WidgetAction(w))],
        None => Seq::empty(),
    }
}

} // verus!
