use hyper::Uri;
use textroom::misc::query_params::{Params, ParseParamError, QueryParams};
use textroom::misc::text::split_text;
use textroom::model::params::{
    CreateParams, DestroyParams, JoinParams, LastAnnouncementParams, PhotoParams,
};

#[test]
fn join_params_it_works() {
    let url = "ws://10.0.2.2:9339/dev/528/join?username=133&display=TH%E1%BB%AC%20NGHI%E1%BB%86M&imageUrl=https%3A%2F%2Fdev.shoplive.vn%2Fcontent%2Fimages%2Favatars%2F133.jpg";
    let uri = url.parse::<Uri>().unwrap();
    let params = JoinParams::parse_uri(uri.query()).unwrap();
    println!("{:?}", params);
    assert_eq!(params.display, Some("THỬ NGHIỆM".to_string()));
    assert_eq!(
        params.image_url,
        Some("https://dev.shoplive.vn/content/images/avatars/133.jpg".to_string())
    );
}

#[test]
fn join_params_keeps_the_username() {
    let params = JoinParams::parse_uri(Some("username=133&display=A")).unwrap();
    assert_eq!(params.username, Some("133".to_string()));
    assert_eq!(params.display, Some("A".to_string()));
    assert_eq!(params.image_url, None);
}

#[test]
fn no_query_has_no_parameters() {
    let params = QueryParams::parse(None);
    assert_eq!(params.get("secret"), None);
    assert_eq!(params.get_list("types"), Vec::<String>::new());
}

#[test]
fn the_first_pair_of_a_key_wins() {
    let params = QueryParams::parse(Some("a=1&b=2&a=3"));
    assert_eq!(params.get("a"), Some("1".to_string()));
    assert_eq!(params.get("b"), Some("2".to_string()));
    assert_eq!(params.get("c"), None);
}

#[test]
fn a_piece_without_equals_is_skipped() {
    let params = QueryParams::parse(Some("a=b&notright&blank=&c=d"));
    assert_eq!(params.get("notright"), None);
    assert_eq!(params.get("blank"), Some(String::new()));
    assert_eq!(params.get("c"), Some("d".to_string()));
}

#[test]
fn a_second_equals_ends_the_value() {
    let params = QueryParams::parse(Some("a=b=c"));
    assert_eq!(params.get("a"), Some("b".to_string()));
}

#[test]
fn keys_are_compared_as_written() {
    let params = QueryParams::parse(Some("na%6De=x"));
    assert_eq!(params.get("name"), None);
    assert_eq!(params.get("na%6De"), Some("x".to_string()));
}

#[test]
fn values_are_percent_decoded() {
    let params = QueryParams::parse(Some("text=this%20that&plus=a+b"));
    assert_eq!(params.get("text"), Some("this that".to_string()));
    assert_eq!(params.get("plus"), Some("a+b".to_string()));
}

#[test]
fn a_value_that_is_no_utf8_counts_as_absent() {
    let params = QueryParams::parse(Some("bad=%FF&good=1"));
    assert_eq!(params.get("bad"), None);
    assert_eq!(params.get_list("bad"), Vec::<String>::new());
    assert_eq!(
        params.require("bad"),
        Err(ParseParamError::FieldRequired { name: "bad" })
    );
    assert_eq!(params.get("good"), Some("1".to_string()));
}

#[test]
fn require_names_the_missing_field() {
    let params = QueryParams::parse(Some("post=x"));
    assert_eq!(
        params.require("secret"),
        Err(ParseParamError::FieldRequired { name: "secret" })
    );
    assert_eq!(params.require("post"), Ok("x".to_string()));
}

#[test]
fn a_list_is_cut_at_commas() {
    let params = QueryParams::parse(Some("types=info,other&empty=&encoded=a%2Cb"));
    assert_eq!(
        params.get_list("types"),
        vec!["info".to_string(), "other".to_string()]
    );
    assert_eq!(params.get_list("empty"), vec![String::new()]);
    assert_eq!(
        params.get_list("encoded"),
        vec!["a".to_string(), "b".to_string()]
    );
    assert_eq!(params.get_list("missing"), Vec::<String>::new());
}

#[test]
fn split_keeps_empty_pieces() {
    assert_eq!(split_text("", ','), vec![String::new()]);
    assert_eq!(
        split_text("a,,b,", ','),
        vec![
            "a".to_string(),
            String::new(),
            "b".to_string(),
            String::new()
        ]
    );
    assert_eq!(split_text("ỬỆ/x", '/'), vec!["ỬỆ".to_string(), "x".to_string()]);
}

#[test]
fn create_params_need_a_secret() {
    let parsed = CreateParams::parse_uri(Some("post=https%3A%2F%2Fhook&postTypes=chat,info"));
    assert_eq!(
        parsed,
        Err(ParseParamError::FieldRequired { name: "secret" })
    );
    let params =
        CreateParams::parse_uri(Some("secret=s&post=https%3A%2F%2Fhook&postTypes=chat,info"))
            .unwrap();
    assert_eq!(params.secret, "s");
    assert_eq!(params.post, Some("https://hook".to_string()));
    assert_eq!(
        params.post_types,
        vec!["chat".to_string(), "info".to_string()]
    );
    let bare = CreateParams::parse_uri(Some("secret=s")).unwrap();
    assert_eq!(bare.post, None);
    assert_eq!(bare.post_types, Vec::<String>::new());
}

#[test]
fn destroy_and_photo_params_need_their_field() {
    assert_eq!(
        DestroyParams::parse_uri(None),
        Err(ParseParamError::FieldRequired { name: "secret" })
    );
    assert_eq!(
        DestroyParams::parse_uri(Some("secret=s")).unwrap().secret,
        "s"
    );
    assert_eq!(
        PhotoParams::parse_uri(Some("user=a")),
        Err(ParseParamError::FieldRequired { name: "username" })
    );
    assert_eq!(
        PhotoParams::parse_uri(Some("username=a")).unwrap().username,
        "a"
    );
}

#[test]
fn last_announcement_params_take_a_list() {
    let params = LastAnnouncementParams::parse_uri(Some("types=info,other")).unwrap();
    assert_eq!(
        params.types,
        vec!["info".to_string(), "other".to_string()]
    );
    let none = LastAnnouncementParams::parse_uri(None).unwrap();
    assert_eq!(none.types, Vec::<String>::new());
}
