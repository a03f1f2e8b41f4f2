//! AWS service clients: the parts of their work that decide and format,
//! the client cache of a tab, and the errors they report.
pub mod cloudwatch_client;
pub mod dynamo_client;
pub mod s3_client;
pub mod tab_clients;

pub use tab_clients::TabClients;

use vstd::prelude::*;
use crate::text::join2;
use cloudwatch_client::CloudWatchClientError;
use dynamo_client::DynamoDBClientError;
use s3_client::S3ClientError;

verus! {

/// Unified error type for all AWS service operations
pub enum ClientError {
    /// Errors from DynamoDB operations
    AWSDynamoDBError(DynamoDBClientError),
    /// Errors from S3 operations
    AWSS3Error(S3ClientError),
    /// Errors from CloudWatch operations
    AWSCloudWatchError(CloudWatchClientError),
}

impl ClientError {
    /// The error as reported to the user.
    pub open spec fn message_text(&self) -> Seq<char> {
        match self {
            ClientError::AWSDynamoDBError(e) => "AWS DynamoDBSDK error: "@ + e@.message(),
            ClientError::AWSS3Error(e) => "AWS S3SDK error: "@ + e@.message(),
            ClientError::AWSCloudWatchError(e) => "AWS CloudWatch error: "@ + e@.message(),
        }
    }

    /// The error as reported to the user.
    pub fn message(&self) -> (s: String)
        ensures
            s@ == self.message_text(),
    {
        match self {
            ClientError::AWSDynamoDBError(e) => join2("AWS DynamoDBSDK error: ", e.message().as_str()),
            ClientError::AWSS3Error(e) => join2("AWS S3SDK error: ", e.message().as_str()),
            ClientError::AWSCloudWatchError(e) => join2("AWS CloudWatch error: ", e.message().as_str()),
        }
    }
}

} // verus!
