use vstd::prelude::*;
use vstd::string::*;

verus! {

/// Where a response body is written: a local file, or an object in an
/// S3-compatible store.
#[derive(Debug, PartialEq, Eq, Clone, Hash)]
pub enum PersistMethod {
    LocalFile { file_path: String },
    AmazonS3 { region: String, bucket_name: String, object_key: String },
}

/// The mathematical form of a sink.
pub enum SpecPersistMethod {
    LocalFile { file_path: Seq<char> },
    AmazonS3 { region: Seq<char>, bucket_name: Seq<char>, object_key: Seq<char> },
}

impl View for PersistMethod {
    type V = SpecPersistMethod;

    open spec fn view(&self) -> SpecPersistMethod {
        match self {
            PersistMethod::LocalFile { file_path } => SpecPersistMethod::LocalFile {
                file_path: file_path@,
            },
            PersistMethod::AmazonS3 { region, bucket_name, object_key } => {
                SpecPersistMethod::AmazonS3 {
                    region: region@,
                    bucket_name: bucket_name@,
                    object_key: object_key@,
                }
            },
        }
    }
}

impl DeepView for PersistMethod {
    type V = SpecPersistMethod;

    open spec fn deep_view(&self) -> SpecPersistMethod {
        self.view()
    }
}

/// The templated part of a sink: the file path, or the object key.
pub open spec fn spec_file_name(m: SpecPersistMethod) -> Seq<char> {
    match m {
        SpecPersistMethod::LocalFile { file_path } => file_path,
        SpecPersistMethod::AmazonS3 { object_key, .. } => object_key,
    }
}

/// A sink with its templated part replaced.
pub open spec fn spec_with_file_name(m: SpecPersistMethod, name: Seq<char>) -> SpecPersistMethod {
    match m {
        SpecPersistMethod::LocalFile { .. } => SpecPersistMethod::LocalFile { file_path: name },
        SpecPersistMethod::AmazonS3 { region, bucket_name, .. } => SpecPersistMethod::AmazonS3 {
            region,
            bucket_name,
            object_key: name,
        },
    }
}

impl PersistMethod {
    /// Replaces the templated part: a local file's path, or an object's key.
    pub fn update_file_path(&mut self, new_file_path: String)
        ensures
            final(self)@ == spec_with_file_name(old(self)@, new_file_path@),
    {
        match self {
            PersistMethod::LocalFile { file_path } => {
                *file_path = new_file_path;
            },
            PersistMethod::AmazonS3 { object_key, .. } => {
                *object_key = new_file_path;
            },
        }
    }

    /// The templated part: a local file's path, or an object's key.
    pub fn get_file_name(&self) -> (r: &str)
        ensures
            r@ == spec_file_name(self@),
    {
        match self {
            PersistMethod::LocalFile { file_path } => file_path.as_str(),
            PersistMethod::AmazonS3 { object_key, .. } => object_key.as_str(),
        }
    }
}

/// How writing to one sink failed.
#[derive(Debug, Eq, PartialEq, Clone)]
pub enum PersistError {
    FailedToWriteLocalFile(String),
    FailedToPutToS3(String),
}

/// The mathematical form of a sink failure.
pub enum SpecPersistError {
    FailedToWriteLocalFile(Seq<char>),
    FailedToPutToS3(Seq<char>),
}

impl View for PersistError {
    type V = SpecPersistError;

    open spec fn view(&self) -> SpecPersistError {
        match self {
            PersistError::FailedToWriteLocalFile(s) => SpecPersistError::FailedToWriteLocalFile(
                s@,
            ),
            PersistError::FailedToPutToS3(s) => SpecPersistError::FailedToPutToS3(s@),
        }
    }
}

impl DeepView for PersistError {
    type V = SpecPersistError;

    open spec fn deep_view(&self) -> SpecPersistError {
        self.view()
    }
}

/// The message of a sink failure.
pub open spec fn spec_persist_error_message(e: SpecPersistError) -> Seq<char> {
    match e {
        SpecPersistError::FailedToWriteLocalFile(s) => "failed to write to local file: "@ + s,
        SpecPersistError::FailedToPutToS3(s) => "failed to put to s3: "@ + s,
    }
}

impl PersistError {
    /// The message of this sink failure.
    pub fn to_message(&self) -> (r: String)
        ensures
            r@ == spec_persist_error_message(self@),
    {
        match self {
            PersistError::FailedToWriteLocalFile(s) => {
                let mut out = String::new();
                out.append("failed to write to local file: ");
                out.append(s.as_str());
                out
            },
            PersistError::FailedToPutToS3(s) => {
                let mut out = String::new();
                out.append("failed to put to s3: ");
                out.append(s.as_str());
                out
            },
        }
    }
}

/// A local write failure, before it is recorded as a sink failure.
#[derive(Debug, Eq, PartialEq, Clone)]
pub struct FailedToWriteLocal(pub String);

/// An object-store failure, before it is recorded as a sink failure.
#[derive(Debug, Eq, PartialEq, Clone)]
pub struct S3WriterError(pub String);

impl FailedToWriteLocal {
    /// Records this failure as a sink failure.
    pub fn into_persist_error(self) -> (r: PersistError)
        ensures
            r@ == SpecPersistError::FailedToWriteLocalFile(self.0@),
    {
        PersistError::FailedToWriteLocalFile(self.0)
    }
}

impl S3WriterError {
    /// Records this failure as a sink failure.
    pub fn into_persist_error(self) -> (r: PersistError)
        ensures
            r@ == SpecPersistError::FailedToPutToS3(self.0@),
    {
        PersistError::FailedToPutToS3(self.0)
    }
}


/// Builds a sink like the given one, with its templated part replaced.
pub fn sink_with_name(sink: &PersistMethod, name: String) -> (r: PersistMethod)
    ensures
        r@ == spec_with_file_name(sink@, name@),
{
    match sink {
        PersistMethod::LocalFile { .. } => PersistMethod::LocalFile { file_path: name },
        PersistMethod::AmazonS3 { region, bucket_name, .. } => PersistMethod::AmazonS3 {
            region: region.clone(),
            bucket_name: bucket_name.clone(),
            object_key: name,
        },
    }
}

} // verus!
