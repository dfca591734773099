use nft_indexer::json::Json;
use nft_indexer::meta::{
    attributes_to_write, collection_meta, extract_description_from_meta, extract_name_from_meta, idles_after,
    meta_reader_writes, next_page, nft_meta_columns, reader_first, reader_next, refresh_status, ReaderStep, refresh_target, refresh_writes_attributes,
    MetaWrite, RefreshMetadataParams, RefreshTarget, IDLE_TIME_AFTER_FINISH_SEC, NFT_PER_ITERATION,
};

fn obj(members: Vec<(&str, Json)>) -> Json {
    Json::Object(members.into_iter().map(|(k, v)| (k.to_string(), v)).collect())
}

fn s(x: &str) -> Json {
    Json::Str(x.to_string())
}

#[test]
fn names_and_descriptions_must_be_strings() {
    let meta = obj(vec![("name", s("Punk #1")), ("description", Json::Number("3".to_string()))]);
    assert_eq!(extract_name_from_meta(&meta).map(|x| x.as_str()), Some("Punk #1"));
    assert_eq!(extract_description_from_meta(&meta), None);
    assert_eq!(extract_name_from_meta(&Json::Null), None);
    assert_eq!(extract_name_from_meta(&Json::Array(vec![s("name")])), None);
}

#[test]
fn the_reader_writes_what_the_metadata_has() {
    let meta = obj(vec![
        ("name", s("A")),
        ("description", s("B")),
        ("attributes", Json::Array(vec![obj(vec![("trait_type", s("eyes"))])])),
    ]);
    let w = meta_reader_writes(&meta);
    assert_eq!(w.len(), 6);
    assert!(matches!(&w[0], MetaWrite::UpdateName(n) if n == "A"));
    assert!(matches!(&w[1], MetaWrite::UpdateDescription(d) if d == "B"));
    match &w[2] {
        MetaWrite::UpdateAttributes(items) => {
            assert_eq!(items.len(), 1);
            assert_eq!(items[0].str_member("trait_type").map(|x| x.as_str()), Some("eyes"));
        },
        _ => panic!("expected the attributes"),
    }
    assert!(matches!(w[3], MetaWrite::UpdateMeta));
    assert!(matches!(w[4], MetaWrite::AddToProceeded));
    assert!(matches!(w[5], MetaWrite::Commit));
}

#[test]
fn empty_attributes_are_not_written_by_the_reader() {
    let meta = obj(vec![("attributes", Json::Array(vec![]))]);
    assert!(attributes_to_write(&meta).is_none());
    let w = meta_reader_writes(&meta);
    assert_eq!(w.len(), 3);
    assert!(refresh_writes_attributes(&meta));
    assert!(!refresh_writes_attributes(&Json::Null));
}

#[test]
fn the_reader_pages_through_nfts() {
    assert_eq!(NFT_PER_ITERATION, 1);
    assert_eq!(IDLE_TIME_AFTER_FINISH_SEC, 60);
    assert_eq!(next_page(0, 1), 1);
    assert_eq!(next_page(7, 1), 8);
    assert_eq!(next_page(7, 0), 1);
    assert!(idles_after(0));
    assert!(!idles_after(1));
}

#[test]
fn collection_metadata() {
    let meta = obj(vec![
        ("name", s("Col")),
        ("preview", obj(vec![("source", s("logo.png"))])),
        ("files", Json::Array(vec![obj(vec![("source", s("wall.png"))]), obj(vec![("source", s("other.png"))])])),
    ]);
    let c = collection_meta(&meta);
    assert_eq!(c.name.as_deref(), Some("Col"));
    assert_eq!(c.description, None);
    assert_eq!(c.logo.as_deref(), Some("logo.png"));
    assert_eq!(c.wallpaper.as_deref(), Some("wall.png"));
    let c = collection_meta(&obj(vec![("files", Json::Array(vec![]))]));
    assert_eq!(c.wallpaper, None);
    assert_eq!(c.logo, None);
}

#[test]
fn nft_columns_default_to_empty_texts() {
    let (name, description) = nft_meta_columns(&obj(vec![("name", s("N"))]));
    assert_eq!(name, "N");
    assert_eq!(description, "");
}

#[test]
fn refresh_requests() {
    let t = refresh_target(RefreshMetadataParams { nft: None, collection: "0:c".to_string() });
    assert!(matches!(t, RefreshTarget::Collection(c) if c == "0:c"));
    let t = refresh_target(RefreshMetadataParams { nft: Some("0:n".to_string()), collection: "0:c".to_string() });
    assert!(matches!(t, RefreshTarget::Nft { nft, collection } if nft == "0:n" && collection == "0:c"));
    assert_eq!(refresh_status(true), 200);
    assert_eq!(refresh_status(false), 500);
}

#[test]
fn json_lookups_take_the_first_member() {
    let meta = obj(vec![("k", s("first")), ("k", s("second"))]);
    assert_eq!(meta.str_member("k").map(|x| x.as_str()), Some("first"));
    assert!(meta.get("missing").is_none());
    assert!(s("x").get("k").is_none());
    assert_eq!(s("x").as_str().map(|x| x.as_str()), Some("x"));
    assert!(Json::Bool(true).as_array().is_none());
}

fn from_serde(v: &serde_json::Value) -> Json {
    match v {
        serde_json::Value::Null => Json::Null,
        serde_json::Value::Bool(b) => Json::Bool(*b),
        serde_json::Value::Number(n) => Json::Number(n.to_string()),
        serde_json::Value::String(x) => Json::Str(x.clone()),
        serde_json::Value::Array(a) => Json::Array(a.iter().map(from_serde).collect()),
        serde_json::Value::Object(o) => Json::Object(o.iter().map(|(k, v)| (k.clone(), from_serde(v))).collect()),
    }
}

#[test]
fn deserialize_meta() {
    let meta: serde_json::Value = serde_json::from_str(
        r#"
      {
        "output": {
          "json": "{\"type\":\"Basic NFT\",\"name\":\"The Everscale Anniversary NFT\",\"description\":\"Everscale is celebrating its second anniversary! We’re grateful to our community for being with us since the beginning, helping us with ideas, and actively participating in the development process. That’s why we decided to create a unique commemorative NFT for our community.\",\"preview\":{\"source\":\"https://ipfs.itgold.io/ipfs/QmfSv4UB62dopa3YnPUkbejChLnx95Vdn1YWH44Q6FQDw4\",\"width\":268,\"height\":268,\"size\":73631,\"mimetype\":\"image/png\",\"format\":\"png\"},\"files\":[{\"source\":\"https://ipfs.itgold.io/ipfs/QmfSv4UB62dopa3YnPUkbejChLnx95Vdn1YWH44Q6FQDw4\",\"width\":268,\"height\":268,\"size\":73631,\"mimetype\":\"image/png\",\"format\":\"png\"}],\"external_url\":\"https://grandbazar.io/collection/everscale-anniversary\"}"
        },
        "code": 0
      }
      "#,
    )
    .unwrap();
    let meta = from_serde(&meta);

    let text = meta.get("output").unwrap().get("json").unwrap().as_str().unwrap();
    let json: serde_json::Value = serde_json::from_str(text).unwrap();
    let json = from_serde(&json);

    println!("{:#?}", json);
    assert_eq!(extract_name_from_meta(&json).map(|x| x.as_str()), Some("The Everscale Anniversary NFT"));
    let c = collection_meta(&json);
    assert_eq!(
        c.logo.as_deref(),
        Some("https://ipfs.itgold.io/ipfs/QmfSv4UB62dopa3YnPUkbejChLnx95Vdn1YWH44Q6FQDw4")
    );
    assert_eq!(c.wallpaper, c.logo);
}

#[test]
fn the_reader_writes_in_order_and_abandons_on_a_failure() {
    let meta = obj(vec![("name", s("A"))]);
    let w = meta_reader_writes(&meta);
    assert_eq!(w.len(), 4);
    let mut step = reader_first(&w);
    let mut carried = vec![];
    while let ReaderStep::Write(i) = step {
        carried.push(i);
        step = reader_next(&w, i, true);
    }
    assert_eq!(carried, vec![0, 1, 2, 3]);
    assert_eq!(step, ReaderStep::Finished);
    assert_eq!(reader_next(&w, 1, false), ReaderStep::Abandon);
    assert_eq!(reader_next(&w, 0, true), ReaderStep::Write(1));
    assert_eq!(reader_first(&vec![]), ReaderStep::Finished);
}
