//! The request that each operation describes.

use openai_files::{
    CreateFileRequest, CreateFileRequestArgs, FileInput, Files, Method, OpenAIError, Payload,
};

#[test]
fn new_keeps_the_client() {
    let client = String::from("https://api.openai.com/v1");
    let files = Files::new(&client);
    assert!(std::ptr::eq(files.client(), &client));
    assert_eq!(files.client(), "https://api.openai.com/v1");
}

#[test]
fn create_posts_the_upload_to_the_collection() {
    let files = Files::new(&());
    let upload = CreateFileRequest {
        file: FileInput { filename: "test.jsonl".to_string(), content: b"{}\n".to_vec() },
        purpose: "fine-tune".to_string(),
    };
    let request = files.create(&upload);
    assert_eq!(request.method, Method::Post);
    assert_eq!(request.path, "/files");
    match request.payload {
        Payload::Form(form) => assert_eq!(form, &upload),
        other => panic!("{other:?}"),
    }
}

#[test]
fn list_gets_the_collection_with_the_query() {
    let files = Files::new(&());
    let query = vec![
        ("purpose".to_string(), "fine-tune".to_string()),
        ("limit".to_string(), "20".to_string()),
    ];
    let request = files.list(&query);
    assert_eq!(request.method, Method::Get);
    assert_eq!(request.path, "/files");
    match request.payload {
        Payload::Query(pairs) => assert_eq!(pairs, &query),
        other => panic!("{other:?}"),
    }
}

#[test]
fn list_with_no_filter_sends_an_empty_query() {
    let files = Files::new(&());
    let query = Vec::new();
    let request = files.list(&query);
    assert_eq!(request.path, "/files");
    match request.payload {
        Payload::Query(pairs) => assert!(pairs.is_empty()),
        other => panic!("{other:?}"),
    }
}

#[test]
fn retrieve_gets_the_file() {
    let files = Files::new(&());
    let request = files.retrieve("file-abc123").unwrap();
    assert_eq!(request.method, Method::Get);
    assert_eq!(request.path, "/files/file-abc123");
    assert!(matches!(request.payload, Payload::Empty));
}

#[test]
fn delete_deletes_the_file() {
    let files = Files::new(&());
    let request = files.delete("file-abc123").unwrap();
    assert_eq!(request.method, Method::Delete);
    assert_eq!(request.path, "/files/file-abc123");
    assert!(matches!(request.payload, Payload::Empty));
}

#[test]
fn retrieve_content_gets_the_content_below_the_file() {
    let files = Files::new(&());
    let request = files.retrieve_content("file-abc123").unwrap();
    assert_eq!(request.method, Method::Get);
    assert_eq!(request.path, "/files/file-abc123/content");
    assert!(matches!(request.payload, Payload::Empty));
}

#[test]
fn identifiers_are_used_as_they_are() {
    let files = Files::new(&());
    assert_eq!(files.retrieve("a b/c?d=e#f").unwrap().path, "/files/a b/c?d=e#f");
    assert_eq!(files.delete("\u{e9}t\u{e9}").unwrap().path, "/files/\u{e9}t\u{e9}");
    assert_eq!(files.retrieve_content(" ").unwrap().path, "/files/ /content");
    assert_ne!(files.retrieve("file-1").unwrap().path, files.retrieve("file-2").unwrap().path);
}

#[test]
fn an_empty_identifier_is_an_invalid_argument() {
    let files = Files::new(&());
    let refused = OpenAIError::InvalidArgument("file_id must not be empty".to_string());
    assert_eq!(files.retrieve("").unwrap_err(), refused);
    assert_eq!(files.delete("").unwrap_err(), refused);
    assert_eq!(files.retrieve_content("").unwrap_err(), refused);
}

#[test]
fn build_gives_the_upload_that_was_described() {
    let upload = CreateFileRequestArgs::default()
        .file(FileInput { filename: "test.jsonl".to_string(), content: vec![1, 2, 3] })
        .purpose("fine-tune")
        .build()
        .unwrap();
    assert_eq!(upload.file.filename, "test.jsonl");
    assert_eq!(upload.file.content, vec![1, 2, 3]);
    assert_eq!(upload.purpose, "fine-tune");
}

#[test]
fn build_takes_the_last_value_of_a_field() {
    let upload = CreateFileRequestArgs::default()
        .purpose("assistants")
        .file(FileInput { filename: "old.txt".to_string(), content: vec![0] })
        .file(FileInput { filename: "new.txt".to_string(), content: vec![] })
        .purpose("fine-tune")
        .build()
        .unwrap();
    assert_eq!(upload.file.filename, "new.txt");
    assert!(upload.file.content.is_empty());
    assert_eq!(upload.purpose, "fine-tune");
}

#[test]
fn build_fails_on_a_missing_field() {
    let nothing = CreateFileRequestArgs::default().build().unwrap_err();
    assert_eq!(nothing, OpenAIError::InvalidArgument("`file` must be initialized".to_string()));

    let no_file = CreateFileRequestArgs::default().purpose("fine-tune").build().unwrap_err();
    assert_eq!(no_file, OpenAIError::InvalidArgument("`file` must be initialized".to_string()));

    let no_purpose = CreateFileRequestArgs::default()
        .file(FileInput { filename: "a".to_string(), content: vec![] })
        .build()
        .unwrap_err();
    assert_eq!(
        no_purpose,
        OpenAIError::InvalidArgument("`purpose` must be initialized".to_string())
    );
}
