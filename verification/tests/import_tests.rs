use hanayomi::db::Db;
use hanayomi::json::{json_text, parse_json_text, Json};
use hanayomi::schemas::term_bank_codec::{definitions_json_text, encode_term_row, decode_term_row};
use hanayomi::schemas::dictionary_tag_bank_v3::{decode_tag_bank, decode_tag_row, encode_tag_row, DictionaryTagBankV3Row};
use hanayomi::schemas::dictionary_term_bank_v3::{Definition, DetailedDefinition, StructuredContent, StructuredContentObject};
use hanayomi::schemas::term_bank_codec::decode_term_bank;
use hanayomi::util::config::init_config;
use hanayomi::util::dict::Dict;

fn parse_rows(text: &str) -> Option<Vec<hanayomi::schemas::dictionary_term_bank_v3::DictionaryTermBankV3Row>> {
    match parse_json_text(text) {
        Ok(j) => decode_term_bank(&j),
        Err(_) => None,
    }
}

#[test]
fn should_parse_term_bank_0() {
    let t = r#"[["犬","いぬ","n","",5.0,["dog"],1,"p"]]"#;
    assert!(parse_rows(t).is_some());
}

#[test]
fn schemas_should_parse_term_bank_0() {
    let t = r#"[["猫","ねこ","n","",1.5,["cat"],2,""]]"#;
    assert!(parse_rows(t).is_some());
}

#[test]
fn should_not_parse_term_bank_1() {
    // seven cells instead of eight
    let t = r#"[["犬","いぬ","n","",5.0,["dog"],1]]"#;
    assert!(parse_rows(t).is_none());
}

#[test]
fn schemas_should_not_parse_term_bank_1() {
    // expression cell is a number
    let t = r#"[[7,"いぬ","n","",5.0,["dog"],1,""]]"#;
    assert!(parse_rows(t).is_none());
}

#[test]
fn should_parse_term_bank_2() {
    let t = r#"[["行く","いく","v","v5k",0.0,[{"type":"text","text":"to go"}],3,""]]"#;
    assert!(parse_rows(t).is_some());
}

#[test]
fn should_parse_term_bank_3() {
    let t = r#"[["山","やま","n","",0.0,[{"type":"structured-content","content":"mountain"}],4,""]]"#;
    assert!(parse_rows(t).is_some());
}

#[test]
fn should_not_parse_term_bank_4() {
    // score cell is a string
    let t = r#"[["川","かわ","n","","high",["river"],5,""]]"#;
    assert!(parse_rows(t).is_none());
}

#[test]
fn should_parse_term_bank_5() {
    let t = r#"[["行った","いった",null,"",0.0,[["行く",["past"]]],6,""]]"#;
    let rows = parse_rows(t).unwrap();
    match &rows[0].definitions[0] {
        Definition::Deinflection(d) => {
            assert_eq!(d.uninflected, "行く");
            assert_eq!(d.inflection_rules, vec!["past".to_string()]);
        }
        _ => panic!("expected a deinflection"),
    }
}

#[test]
fn should_parse_term_bank_6() {
    let t = r#"[["絵","え","n","",0.0,[{"type":"structured-content","content":{"tag":"img","path":"img/e.png","width":12.5}}],7,""]]"#;
    assert!(parse_rows(t).is_some());
}

#[test]
fn should_not_parse_term_bank_7() {
    // definitions cell is not an array
    let t = r#"[["木","き","n","","0",8,9,""]]"#;
    assert!(parse_rows(t).is_none());
}

#[test]
fn should_parse_term_bank_8() {
    let t = r#"[["空","そら","n","",0.0,[{"type":"structured-content","content":[["a","b"],"c"]}],8,""]]"#;
    assert!(parse_rows(t).is_some());
}

#[test]
fn should_not_parse_term_bank_9() {
    // unknown element tag
    let t = r#"[["海","うみ","n","",0.0,[{"type":"structured-content","content":{"tag":"marquee"}}],9,""]]"#;
    assert!(parse_rows(t).is_none());
}

#[test]
fn should_parse_term_bank_10() {
    let t = r#"[["火","ひ","n","",0.0,[{"type":"structured-content","content":{"tag":"span","style":{"fontStyle":"italic"},"content":"fire"}}],10,""]]"#;
    assert!(parse_rows(t).is_some());
}

#[test]
fn should_not_parse_term_bank_11() {
    // sequence is not a whole number
    let t = r#"[["水","みず","n","",0.0,["water"],11.5,""]]"#;
    assert!(parse_rows(t).is_none());
}

#[test]
fn should_parse_term_bank_12() {
    let t = r#"[["土","つち","n","",0.0,[{"type":"structured-content","content":{"tag":"div","data":{"kind":"note"},"content":"earth"}}],12,""]]"#;
    assert!(parse_rows(t).is_some());
}

#[test]
fn should_parse_term_bank_13() {
    // a negative width deserializes, but the validation pass rejects it
    let t = r#"[["金","かね","n","",0.0,[{"type":"structured-content","content":{"tag":"img","path":"img/kane.png","width":-1}}],13,""]]"#;
    let rows = parse_rows(t).unwrap();
    match &rows[0].definitions[0] {
        Definition::Detailed(b) => match &**b {
            DetailedDefinition::StructuredContent(c) => match &*c.content {
                StructuredContent::Object(o) => match &**o {
                    StructuredContentObject::Img(f) => {
                        assert_eq!(f.width.as_deref(), Some("-1"));
                        assert!(f.validate().is_err());
                    }
                    _ => panic!("expected an image element"),
                },
                _ => panic!("expected an element"),
            },
            _ => panic!("expected structured content"),
        },
        _ => panic!("expected a detailed definition"),
    }
}

#[test]
fn should_parse_term_bank_14() {
    let t = r#"[["銀","ぎん","n","",0.0,[{"type":"structured-content","content":{"tag":"img","path":"img/gin.png","imageRendering":"pixelated"}}],14,""]]"#;
    let rows = parse_rows(t).unwrap();
    match &rows[0].definitions[0] {
        Definition::Detailed(b) => match &**b {
            DetailedDefinition::StructuredContent(c) => match &*c.content {
                StructuredContent::Object(o) => match &**o {
                    StructuredContentObject::Img(f) => {
                        assert!(f.width.is_none());
                        assert_eq!(f.image_rendering, "pixelated");
                        assert!(f.validate().is_ok());
                    }
                    _ => panic!("expected an image element"),
                },
                _ => panic!("expected an element"),
            },
            _ => panic!("expected structured content"),
        },
        _ => panic!("expected a detailed definition"),
    }
}

#[test]
fn term_row_fields_come_back_exactly() {
    let t = r#"[["犬","いぬ","n common","v5",-3.25,["dog","hound"],42,"p"]]"#;
    let rows = parse_rows(t).unwrap();
    let r = &rows[0];
    assert_eq!(r.expression, "犬");
    assert_eq!(r.reading, "いぬ");
    assert_eq!(r.definition_tags.as_deref(), Some("n common"));
    assert_eq!(r.rules, "v5");
    assert_eq!(r.score, "-3.25");
    assert_eq!(r.sequence, 42);
    assert_eq!(r.expression_tags, "p");
    assert_eq!(r.definitions.len(), 2);
}

#[test]
fn deep_array_nesting_parses() {
    // depth five: array of array of array of array of text
    let t = r#"[["々","々","","",0.0,[{"type":"structured-content","content":[[[["deep"]]]]}],1,""]]"#;
    let rows = parse_rows(t).unwrap();
    assert!(rows[0].validate());
}

#[test]
fn tag_row_round_trip() {
    let row = DictionaryTagBankV3Row {
        name: "n".to_string(),
        category: "partOfSpeech".to_string(),
        order: "-3".to_string(),
        notes: "noun".to_string(),
        score: "0.5".to_string(),
    };
    let j = encode_tag_row(&row);
    let back = decode_tag_row(&j).unwrap();
    assert_eq!(back.name, "n");
    assert_eq!(back.category, "partOfSpeech");
    assert_eq!(back.order, "-3");
    assert_eq!(back.notes, "noun");
    assert_eq!(back.score, "0.5");
}

#[test]
fn tag_bank_rejects_short_rows() {
    let j = parse_json_text(r#"[["n","pos",0,"x"]]"#).unwrap();
    assert!(decode_tag_bank(&j).is_none());
}

#[test]
fn index_constraints_are_a_separate_pass() {
    let config = init_config("/tmp/work");
    let dict = Dict::new(&config);
    let ix = dict.parse_index(r#"{"title":"T","revision":"1","format":7}"#);
    // format 7 deserializes (it fits a byte) but fails validation
    let ix = ix.unwrap();
    assert!(ix.validate().is_err());
    let ok = dict.parse_index(r#"{"title":"T","revision":"1","version":2,"sourceLanguage":"ja"}"#).unwrap();
    assert!(ok.validate().is_ok());
    assert_eq!(ok.get_format(), 2);
    assert!(dict.parse_index(r#"{"revision":"1"}"#).is_err());
}

#[test]
fn insert_commits_one_dictionary_and_one_entry() {
    let config = init_config("/tmp/work");
    let dict = Dict::new(&config);
    let mut db = Db::new();
    let term_files = vec![(
        "term_bank_1.json".to_string(),
        r#"[["犬","いぬ","","",0.0,["dog"],1,""]]"#.to_string(),
    )];
    let tag_files: Vec<(String, String)> = Vec::new();
    dict.parse_dict(&mut db, r#"{"title":"T","revision":"1"}"#, &term_files, &tag_files)
        .unwrap();
    assert_eq!(db.dictionaries.len(), 1);
    assert_eq!(db.entries.len(), 1);
    assert_eq!(db.dictionaries[0].title, "T");
    let hits = db.query_dictionary_entry_by("犬");
    assert_eq!(hits.len(), 1);
    assert_eq!(hits[0].expression, "犬");
    assert_eq!(hits[0].dictionary_id, db.dictionaries[0].id);
    assert!(db.query_dictionary_entry_by("猫").is_empty());
}

#[test]
fn failed_tag_bank_leaves_no_rows() {
    let config = init_config("/tmp/work");
    let dict = Dict::new(&config);
    let mut db = Db::new();
    let term_files = vec![(
        "term_bank_1.json".to_string(),
        r#"[["犬","いぬ","","",0.0,["dog"],1,""]]"#.to_string(),
    )];
    // the tag bank is malformed: rows have four cells
    let tag_files = vec![("tag_bank_1.json".to_string(), r#"[["n","pos",0,"x"]]"#.to_string())];
    let r = dict.parse_dict(&mut db, r#"{"title":"T","revision":"1"}"#, &term_files, &tag_files);
    assert!(r.is_err());
    assert_eq!(db.dictionaries.len(), 0);
    assert_eq!(db.entries.len(), 0);
    assert_eq!(db.tags.len(), 0);
}

#[test]
fn chunked_insert_persists_every_row() {
    let config = init_config("/tmp/work");
    let dict = Dict::new(&config);
    let mut db = Db::new();
    let mut bank = String::from("[");
    for i in 0..250 {
        if i > 0 {
            bank.push(',');
        }
        bank.push_str(&format!(r#"["w{}","r{}","","",0.0,["d"],{},""]"#, i, i, i));
    }
    bank.push(']');
    let term_files = vec![("term_bank_1.json".to_string(), bank)];
    let tag_files: Vec<(String, String)> = Vec::new();
    dict.parse_dict(&mut db, r#"{"title":"T","revision":"1"}"#, &term_files, &tag_files)
        .unwrap();
    assert_eq!(db.entries.len(), 250);
    assert_eq!(db.entries[0].id, 1);
    assert_eq!(db.entries[249].id, 250);
    assert_eq!(db.entries[249].expression, "w249");
}

#[test]
fn query_dictionary_not_found_is_none() {
    let db = Db::new();
    assert!(db.query_dictionary(42).is_none());
    let mut db = Db::new();
    let config = init_config("/tmp/work");
    let dict = Dict::new(&config);
    let term_files: Vec<(String, String)> = Vec::new();
    let tag_files: Vec<(String, String)> = Vec::new();
    dict.parse_dict(&mut db, r#"{"title":"T","revision":"1"}"#, &term_files, &tag_files)
        .unwrap();
    let id = db.dictionaries[0].id;
    assert!(db.query_dictionary(id).is_some());
    assert!(db.query_dictionary(id + 1).is_none());
}

#[test]
fn tag_rows_are_persisted_and_queried() {
    let config = init_config("/tmp/work");
    let dict = Dict::new(&config);
    let mut db = Db::new();
    let term_files: Vec<(String, String)> = Vec::new();
    let tag_files = vec![(
        "tag_bank_1.json".to_string(),
        r#"[["n","partOfSpeech",-3,"noun",0.5],["p","popular",0,"",10]]"#.to_string(),
    )];
    dict.parse_dict(&mut db, r#"{"title":"T","revision":"1"}"#, &term_files, &tag_files)
        .unwrap();
    assert_eq!(db.tags.len(), 2);
    let hits = db.query_definition_tag_by("n");
    assert_eq!(hits.len(), 1);
    assert_eq!(hits[0].category, "partOfSpeech");
    assert_eq!(hits[0].order, "-3");
    assert!(db.query_definition_tag_by("x").is_empty());
}

#[test]
fn bank_file_selection_matches_prefix_and_suffix() {
    let config = init_config("/tmp/work");
    let dict = Dict::new(&config);
    let names = vec![
        "index.json".to_string(),
        "term_bank_1.json".to_string(),
        "term_bank_2.json".to_string(),
        "tag_bank_1.json".to_string(),
        "term_bank_3.txt".to_string(),
    ];
    let terms = dict.get_entries(&names, "term_bank_");
    assert_eq!(terms, vec!["term_bank_1.json".to_string(), "term_bank_2.json".to_string()]);
    let tags = dict.get_entries(&names, "tag_bank_");
    assert_eq!(tags, vec!["tag_bank_1.json".to_string()]);
}

#[test]
fn image_definition_validation_requires_positive_sizes() {
    let t = r#"[["金","かね","n","",0.0,[{"type":"image","path":"img/kane.png","width":0}],13,""]]"#;
    let rows = parse_rows(t).unwrap();
    match &rows[0].definitions[0] {
        Definition::Detailed(b) => match &**b {
            DetailedDefinition::Image(f) => {
                assert_eq!(f.width, Some(0));
                assert!(f.validate().is_err());
            }
            _ => panic!("expected an image definition"),
        },
        _ => panic!("expected a detailed definition"),
    }
}

#[test]
fn link_elements_demand_a_web_or_query_target() {
    let good = r#"[["a","a","","",0.0,[{"type":"structured-content","content":{"tag":"a","href":"https://example.test"}}],1,""]]"#;
    let rows = parse_rows(good).unwrap();
    assert!(rows[0].validate());
    let bad = r#"[["a","a","","",0.0,[{"type":"structured-content","content":{"tag":"a","href":"ftp://example.test"}}],1,""]]"#;
    let rows = parse_rows(bad).unwrap();
    assert!(!rows[0].validate());
}

#[test]
fn deep_nesting_is_guarded() {
    let mut t = String::from(r#"[["x","x","","",0.0,[{"type":"structured-content","content":"#);
    for _ in 0..600 {
        t.push('[');
    }
    t.push_str("\"deep\"");
    for _ in 0..600 {
        t.push(']');
    }
    t.push_str(r#"}],1,""]]"#);
    assert!(parse_rows(&t).is_none());
}

#[test]
fn img_collapsible_defaults_true() {
    // the img node's collapsible member defaults true when absent
    let t = r#"[["銅","どう","n","",0.0,[{"type":"structured-content","content":{"tag":"img","path":"img/dou.png"}}],15,""]]"#;
    let rows = parse_rows(t).unwrap();
    match &rows[0].definitions[0] {
        Definition::Detailed(b) => match &**b {
            DetailedDefinition::StructuredContent(c) => match &*c.content {
                StructuredContent::Object(o) => match &**o {
                    StructuredContentObject::Img(f) => {
                        assert!(f.collapsible);
                        assert!(!f.collapsed);
                        assert!(f.background);
                    }
                    _ => panic!("expected an image element"),
                },
                _ => panic!("expected an element"),
            },
            _ => panic!("expected structured content"),
        },
        _ => panic!("expected a detailed definition"),
    }
}

#[test]
fn term_row_serialize_then_parse_is_identity() {
    let t = r#"[["犬","いぬ",null,"v5",-3.25,["dog",{"type":"structured-content","content":{"tag":"span","style":{"fontStyle":"italic"},"content":["fire",{"tag":"br"}]}},["行く",["past"]]],42,"p"]]"#;
    let rows = parse_rows(t).unwrap();
    let j = encode_term_row(&rows[0]);
    let back = decode_term_row(&j).unwrap();
    assert_eq!(back.expression, rows[0].expression);
    assert_eq!(back.reading, rows[0].reading);
    assert_eq!(back.definition_tags, rows[0].definition_tags);
    assert_eq!(back.score, rows[0].score);
    assert_eq!(back.sequence, rows[0].sequence);
    assert_eq!(back.definitions.len(), rows[0].definitions.len());
    // and the written text reads back as the same document
    let text = json_text(&j);
    let j2 = parse_json_text(&text).unwrap();
    let back2 = decode_term_row(&j2).unwrap();
    assert_eq!(back2.expression, rows[0].expression);
    assert_eq!(back2.definitions.len(), rows[0].definitions.len());
}

#[test]
fn json_text_writes_the_compact_grammar() {
    let j = parse_json_text(r#"[ "a\"b\\c" , {"k" : [1, -2.5, null, true]} ]"#).unwrap();
    assert_eq!(json_text(&j), r#"["a\"b\\c",{"k":[1,-2.5,null,true]}]"#);
    let nl = Json::Str("a\nb\u{1}".to_string());
    assert_eq!(json_text(&nl), "\"a\\nb\\u0001\"");
}

#[test]
fn definitions_text_keeps_rich_content() {
    let t = r#"[["火","ひ","n","",0.0,[{"type":"structured-content","content":"fire"}],10,""]]"#;
    let rows = parse_rows(t).unwrap();
    let text = definitions_json_text(&rows[0].definitions);
    assert_eq!(text, r#"[{"type":"structured-content","content":"fire"}]"#);
}

#[test]
fn tag_meta_is_persisted_as_a_document() {
    let config = init_config("/tmp/work");
    let dict = Dict::new(&config);
    let ix = dict
        .parse_index(r#"{"title":"T","revision":"1","tagMeta":{"n":{"category":"pos","score":1.5}}}"#)
        .unwrap();
    let text = json_text(&hanayomi::schemas::dictionary_index::encode_tag_meta(&ix.tag_meta));
    assert_eq!(text, r#"{"n":{"category":"pos","score":1.5}}"#);
    let none = dict.parse_index(r#"{"title":"T","revision":"1"}"#).unwrap();
    assert_eq!(json_text(&hanayomi::schemas::dictionary_index::encode_tag_meta(&none.tag_meta)), "null");
}

#[test]
fn delete_dictionary_cascades() {
    let config = init_config("/tmp/work");
    let dict = Dict::new(&config);
    let mut db = Db::new();
    let term_files = vec![(
        "term_bank_1.json".to_string(),
        r#"[["犬","いぬ","","",0.0,["dog"],1,""]]"#.to_string(),
    )];
    let tag_files = vec![(
        "tag_bank_1.json".to_string(),
        r#"[["n","partOfSpeech",-3,"noun",0.5]]"#.to_string(),
    )];
    dict.parse_dict(&mut db, r#"{"title":"A","revision":"1"}"#, &term_files, &tag_files)
        .unwrap();
    let other: Vec<(String, String)> = Vec::new();
    dict.parse_dict(&mut db, r#"{"title":"B","revision":"1"}"#, &other, &other).unwrap();
    assert_eq!(db.dictionaries.len(), 2);
    let first = db.dictionaries[0].id;
    db.delete_dictionary(first);
    assert_eq!(db.dictionaries.len(), 1);
    assert_eq!(db.dictionaries[0].title, "B");
    assert!(db.entries.is_empty());
    assert!(db.tags.is_empty());
    // deleting an absent identifier removes nothing
    db.delete_dictionary(first);
    assert_eq!(db.dictionaries.len(), 1);
}
