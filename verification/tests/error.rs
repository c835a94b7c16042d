use easel_libraw::error::{Error, Kind, ResultExt};

#[test]
fn error_io_has_correct_kind() {
  let err = Error::io("file not found");
  assert_eq!(err.kind(), Kind::Io);
  assert_eq!(err.message(), "file not found");
}

#[test]
fn error_unsupported_has_correct_kind() {
  let err = Error::unsupported("HEIF thumbnail");
  assert_eq!(err.kind(), Kind::Unsupported);
  assert_eq!(err.message(), "HEIF thumbnail");
}

#[test]
fn error_corrupt_has_correct_kind() {
  let err = Error::corrupt("truncated file");
  assert_eq!(err.kind(), Kind::Corrupt);
  assert_eq!(err.message(), "truncated file");
}

#[test]
fn error_resource_has_correct_kind() {
  let err = Error::resource("out of memory");
  assert_eq!(err.kind(), Kind::Resource);
  assert_eq!(err.message(), "out of memory");
}

#[test]
fn error_context_prepends_callsite() {
  let err = Error::corrupt("bad data").context("Decoder::process failed");
  assert_eq!(err.message(), "Decoder::process failed: bad data");
  assert_eq!(err.kind(), Kind::Corrupt);
}

#[test]
fn error_context_on_empty_message() {
  let err = Error::io("").context("open failed");
  assert_eq!(err.message(), "open failed");
}

#[test]
fn error_is_kind_returns_true_for_matching() {
  let err = Error::unsupported("test");
  assert!(err.is_kind(Kind::Unsupported));
  assert!(!err.is_kind(Kind::Io));
  assert!(!err.is_kind(Kind::Corrupt));
  assert!(!err.is_kind(Kind::Resource));
}

#[test]
fn error_display_includes_kind_message() {
  let err = Error::corrupt("bad header");
  let display = err.to_string();
  assert!(display.contains("bad header"));
  assert!(display.contains("corrupt data"));
}

#[test]
fn error_display_with_source() {
  let source = std::io::Error::new(std::io::ErrorKind::NotFound, "no such file");
  let err = Error::io("open failed").with_source(&source.to_string());
  let display = err.to_string();
  assert!(display.contains("caused by"));
}

#[test]
fn result_ext_context_on_err() {
  let result: Result<(), Error> = Err(Error::corrupt("inner"));
  let result = result.context("outer");
  let err = result.unwrap_err();
  assert_eq!(err.message(), "outer: inner");
}

#[test]
fn result_ext_context_on_ok() {
  let result: Result<u32, Error> = Ok(42);
  let result = result.context("should not appear");
  assert_eq!(result.unwrap(), 42);
}

#[test]
fn error_is_send_sync() {
  fn assert_send_sync<T: Send + Sync>() {}
  assert_send_sync::<Error>();
}

#[test]
fn kind_display() {
  assert_eq!(Kind::Io.to_string(), "i/o failure");
  assert_eq!(Kind::Unsupported.to_string(), "unsupported format");
  assert_eq!(Kind::Corrupt.to_string(), "corrupt data");
  assert_eq!(Kind::Resource.to_string(), "resource exhaustion");
}

#[test]
fn error_display_empty_message_shows_kind_only() {
  let err = Error::io("");
  let display = err.to_string();
  assert_eq!(display, "i/o failure");
}

#[test]
fn error_source_returns_some_when_set() {
  let source = std::io::Error::other("inner");
  let err = Error::io("outer").with_source(&source.to_string());
  assert!(err.source().is_some());
  assert!(err.source().unwrap().to_string().contains("inner"));
}

#[test]
fn error_source_returns_none_when_unset() {
  let err = Error::io("no source");
  assert!(err.source().is_none());
}

// Further cases.

#[test]
fn kind_default_messages() {
  assert_eq!(Kind::Io.default_message(), "i/o failure");
  assert_eq!(Kind::Unsupported.default_message(), "unsupported format");
  assert_eq!(Kind::Corrupt.default_message(), "corrupt data");
  assert_eq!(Kind::Resource.default_message(), "resource exhaustion");
}

#[test]
fn error_display_exact_forms() {
  assert_eq!(Error::corrupt("bad header").to_string(), "bad header: corrupt data");
  assert_eq!(
    Error::io("open failed").with_source("no such file").to_string(),
    "open failed: i/o failure\n  caused by: no such file"
  );
  assert_eq!(
    Error::resource("").with_source("pool").to_string(),
    "resource exhaustion\n  caused by: pool"
  );
}

#[test]
fn context_keeps_kind_and_source() {
  let err = Error::resource("pool").with_source("inner").context("stage");
  assert_eq!(err.kind(), Kind::Resource);
  assert_eq!(err.source(), Some("inner"));
  assert_eq!(err.message(), "stage: pool");
}

#[test]
fn context_applied_twice_nests() {
  let err = Error::unsupported("codec").context("inner").context("outer");
  assert_eq!(err.message(), "outer: inner: codec");
  assert_eq!(err.kind(), Kind::Unsupported);
}

#[test]
fn with_source_keeps_kind_and_message() {
  let err = Error::corrupt("m").with_source("cause");
  assert_eq!(err.kind(), Kind::Corrupt);
  assert_eq!(err.message(), "m");
  assert_eq!(err.source(), Some("cause"));
}
