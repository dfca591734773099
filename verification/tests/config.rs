use nft_indexer::batch::round_data;
use nft_indexer::context::DecodeError;
use nft_indexer::placeholders::{placeholder_names, substitute_placeholders};
use nft_indexer::records::Decoded;
use nft_indexer::settings::{kafka_option_key, kafka_options};

#[test]
fn placeholders_name_environment_variables() {
    let text = "url: ${DB_URL}\nuser: $USER ${1BAD} ${_x9} ${open\nend: ${A}}";
    let names = placeholder_names(text);
    assert_eq!(names, vec!["DB_URL", "_x9", "A"]);
    let out = substitute_placeholders(
        text,
        &vec!["postgres://db".to_string(), String::new(), "v".to_string()],
    );
    assert_eq!(out, "url: postgres://db\nuser: $USER ${1BAD}  ${open\nend: v}");
}

#[test]
fn text_without_placeholders_is_unchanged() {
    let text = "kafka:\n  topic: transactions\n";
    assert!(placeholder_names(text).is_empty());
    assert_eq!(substitute_placeholders(text, &vec![]), text);
    assert_eq!(substitute_placeholders("${a}${b}", &vec!["1".to_string(), "2".to_string()]), "12");
    assert_eq!(substitute_placeholders("$${a}", &vec!["x".to_string()]), "$x");
}

#[test]
fn kafka_settings() {
    assert_eq!(kafka_option_key("security_protocol"), "security.protocol");
    assert_eq!(kafka_option_key("plain"), "plain");
    let settings = vec![("a.b".to_string(), "1".to_string())];
    assert_eq!(kafka_options(Some(true), &settings), settings);
    assert!(kafka_options(Some(false), &settings).is_empty());
    assert!(kafka_options(None, &settings).is_empty());
}

#[test]
fn a_round_keeps_what_decoded() {
    let data = round_data(vec![
        (Ok(Decoded::ShouldSkip), Err(DecodeError::IntegerOverflow)),
        (Err(DecodeError::IntegerOverflow), Ok(Decoded::ShouldSkip)),
        (Err(DecodeError::IntegerOverflow), Err(DecodeError::IntegerOverflow)),
        (Ok(Decoded::ShouldSkip), Ok(Decoded::ShouldSkip)),
    ]);
    assert_eq!(data.len(), 4);
}
