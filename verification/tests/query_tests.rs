use signals::error::ParseError;
use signals::id::Id;
use signals::messages::query_parameters::{
    expr, factor, fold_exprs, is_blank_char, term, Expr, Filter, Oper, QueryParameters,
};
use signals::rpc::agent::RpcImpl as AgentRpc;
use signals::rpc::error::Error;
use signals::rpc::track::RpcImpl as TrackRpc;
use uuid::Uuid;

fn id(text: &str) -> Id {
    Id::new(Uuid::parse_str(text).unwrap().as_u128())
}

#[test]
fn parse_factor() {
    let room_id = Uuid::parse_str("7945cf5b-2c73-4936-80cb-5cce27e9950d").unwrap();
    let input = format!("  room_id:{}  ", room_id);

    assert_eq!(
        factor(&input),
        Ok((
            "".to_string(),
            Expr::Value(Filter::RoomId(Id::new(room_id.as_u128())))
        ))
    );
}

#[test]
fn parse_term() {
    let room_id = Uuid::parse_str("7945cf5b-2c73-4936-80cb-5cce27e9950d").unwrap();
    let owner_id = Uuid::parse_str("55e813bc-0c9b-4270-9f7f-81e5ffcfc9ff").unwrap();

    let input = format!(" room_id:{} AND  owner_id:{}   ", room_id, owner_id);
    let expected = Expr::And(
        Box::new(Expr::Value(Filter::RoomId(Id::new(room_id.as_u128())))),
        Box::new(Expr::Value(Filter::OwnerId(Id::new(owner_id.as_u128())))),
    );

    assert_eq!(term(&input), Ok(("".to_string(), expected)));
}

#[test]
fn parse_expr() {
    let room_id = Uuid::parse_str("7945cf5b-2c73-4936-80cb-5cce27e9950d").unwrap();
    let owner_id = Uuid::parse_str("55e813bc-0c9b-4270-9f7f-81e5ffcfc9ff").unwrap();
    let holder_id = Uuid::parse_str("30ae48f8-57c1-4704-ba48-19edb3c22b09").unwrap();

    let input = format!(
        " owner_id:{}  OR holders.id:{} AND room_id:{} ",
        owner_id, holder_id, room_id
    );
    let expected = Expr::Or(
        Box::new(Expr::Value(Filter::OwnerId(Id::new(owner_id.as_u128())))),
        Box::new(Expr::And(
            Box::new(Expr::Value(Filter::HolderId(Id::new(holder_id.as_u128())))),
            Box::new(Expr::Value(Filter::RoomId(Id::new(room_id.as_u128())))),
        )),
    );

    assert_eq!(expr(&input), Ok(("".to_string(), expected)));
}

#[test]
fn parse_parenthesis() {
    let room_id = Uuid::parse_str("7945cf5b-2c73-4936-80cb-5cce27e9950d").unwrap();
    let owner_id = Uuid::parse_str("55e813bc-0c9b-4270-9f7f-81e5ffcfc9ff").unwrap();
    let holder_id = Uuid::parse_str("30ae48f8-57c1-4704-ba48-19edb3c22b09").unwrap();

    let input = format!(
        " ( owner_id:{}  OR holders.id:{} ) AND room_id:{} ",
        owner_id, holder_id, room_id
    );
    let expected = Expr::And(
        Box::new(Expr::Parenthesis(Box::new(Expr::Or(
            Box::new(Expr::Value(Filter::OwnerId(Id::new(owner_id.as_u128())))),
            Box::new(Expr::Value(Filter::HolderId(Id::new(holder_id.as_u128())))),
        )))),
        Box::new(Expr::Value(Filter::RoomId(Id::new(room_id.as_u128())))),
    );

    assert_eq!(expr(&input), Ok(("".to_string(), expected)));
}

#[test]
fn expr_from_str() {
    let room_id = Uuid::parse_str("7945cf5b-2c73-4936-80cb-5cce27e9950d").unwrap();
    let input = format!("room_id:{}", room_id);
    let ex = Expr::from_str(&input);

    assert!(ex.is_ok());
    assert_eq!(
        ex.unwrap(),
        Expr::Value(Filter::RoomId(Id::new(room_id.as_u128())))
    );

    let input = format!("room:{}", room_id);
    assert!(Expr::from_str(&input).is_err())
}

const A: &str = "7945cf5b-2c73-4936-80cb-5cce27e9950d";
const B: &str = "55e813bc-0c9b-4270-9f7f-81e5ffcfc9ff";
const C: &str = "30ae48f8-57c1-4704-ba48-19edb3c22b09";

fn room(text: &str) -> Expr {
    Expr::Value(Filter::RoomId(id(text)))
}

fn owner(text: &str) -> Expr {
    Expr::Value(Filter::OwnerId(id(text)))
}

#[test]
fn joining_goes_to_the_left() {
    let input = format!("room_id:{} AND owner_id:{} AND room_id:{}", A, B, C);
    let expected = Expr::And(
        Box::new(Expr::And(Box::new(room(A)), Box::new(owner(B)))),
        Box::new(room(C)),
    );
    assert_eq!(Expr::from_str(&input), Ok(expected));
    let input = format!("room_id:{} OR owner_id:{} OR room_id:{}", A, B, C);
    let expected = Expr::Or(
        Box::new(Expr::Or(Box::new(room(A)), Box::new(owner(B)))),
        Box::new(room(C)),
    );
    assert_eq!(Expr::from_str(&input), Ok(expected));
    let input = format!("room_id:{} AND owner_id:{} OR room_id:{}", A, B, C);
    let expected = Expr::Or(
        Box::new(Expr::And(Box::new(room(A)), Box::new(owner(B)))),
        Box::new(room(C)),
    );
    assert_eq!(Expr::from_str(&input), Ok(expected));
}

#[test]
fn brackets_nest() {
    let input = format!("\t((\nroom_id:{}\r) )", A);
    let expected = Expr::Parenthesis(Box::new(Expr::Parenthesis(Box::new(room(A)))));
    assert_eq!(expr(&input), Ok(("".to_string(), expected)));
    let input = format!("(room_id:{}", A);
    assert_eq!(expr(&input), Err(ParseError::NoAlternativeMatched));
    assert_eq!(expr("()"), Err(ParseError::NoAlternativeMatched));
    assert_eq!(expr("("), Err(ParseError::NoAlternativeMatched));
    assert_eq!(expr(""), Err(ParseError::NoAlternativeMatched));
    assert_eq!(expr("   "), Err(ParseError::NoAlternativeMatched));
}

#[test]
fn what_follows_an_expression_is_left_over() {
    let input = format!("room_id:{} AND nothing", A);
    assert_eq!(expr(&input), Ok(("AND nothing".to_string(), room(A))));
    assert_eq!(Expr::from_str(&input), Ok(room(A)));
    let input = format!("room_id:{} rest", A);
    assert_eq!(factor(&input), Ok(("rest".to_string(), room(A))));
    let input = format!("room_id:{} OR", A);
    assert_eq!(expr(&input), Ok(("OR".to_string(), room(A))));
    let input = format!("room_id:{}AND owner_id:{}", A, B);
    assert_eq!(
        term(&input),
        Ok((
            "".to_string(),
            Expr::And(Box::new(room(A)), Box::new(owner(B)))
        ))
    );
    let input = format!("room_id:{} and owner_id:{}", A, B);
    assert_eq!(
        expr(&input),
        Ok((format!("and owner_id:{}", B), room(A)))
    );
    let input = format!("room_id:{} OR owner_id:{}", A, B);
    assert_eq!(
        term(&input),
        Ok((format!("OR owner_id:{}", B), room(A)))
    );
}

#[test]
fn conditions_need_a_canonical_identifier() {
    assert_eq!(
        factor("room_id:7945cf5b-2c73-4936-80cb-5cce27e9950"),
        Err(ParseError::NoAlternativeMatched)
    );
    assert_eq!(
        factor("room_id:7945CF5B-2C73-4936-80CB-5CCE27E9950D"),
        Err(ParseError::NoAlternativeMatched)
    );
    assert_eq!(
        factor("room_id: 7945cf5b-2c73-4936-80cb-5cce27e9950d"),
        Err(ParseError::NoAlternativeMatched)
    );
    assert_eq!(
        factor("holder_id:7945cf5b-2c73-4936-80cb-5cce27e9950d"),
        Err(ParseError::NoAlternativeMatched)
    );
    assert_eq!(
        factor("holders.id:7945cf5b-2c73-4936-80cb-5cce27e9950d"),
        Ok(("".to_string(), Expr::Value(Filter::HolderId(id(A)))))
    );
    assert_eq!(
        factor("owner_id:7945cf5b-2c73-4936-80cb-5cce27e9950d0"),
        Ok(("0".to_string(), owner(A)))
    );
}

#[test]
fn blanks() {
    for c in [' ', '\t', '\r', '\n'] {
        assert!(is_blank_char(c));
    }
    for c in ['a', '\u{a0}', '\u{b}', '\u{c}', '(', '0'] {
        assert!(!is_blank_char(c));
    }
}

fn params(text: &str) -> QueryParameters {
    QueryParameters::new(Some(text.to_string()))
}

#[test]
fn agents_are_listed_by_room() {
    assert_eq!(AgentRpc.list_filter(&QueryParameters::new(None)), Ok(None));
    assert_eq!(AgentRpc.list_filter(&params("")), Ok(None));
    assert_eq!(
        AgentRpc.list_filter(&params(&format!(" room_id:{} ", A))),
        Ok(Some(id(A)))
    );
    assert_eq!(
        AgentRpc.list_filter(&params(&format!("owner_id:{}", A))),
        Err(Error::BadRequest)
    );
    assert_eq!(
        AgentRpc.list_filter(&params(&format!("(room_id:{})", A))),
        Err(Error::BadRequest)
    );
    assert_eq!(
        AgentRpc.list_filter(&params(&format!("room_id:{} AND room_id:{}", A, B))),
        Err(Error::BadRequest)
    );
    assert_eq!(
        AgentRpc.list_filter(&params("room_id")),
        Err(Error::InvalidParameters(ParseError::NoAlternativeMatched))
    );
}

#[test]
fn tracks_are_listed_by_room_and_owner() {
    assert_eq!(TrackRpc.list_filter(&QueryParameters::new(None)), Ok(vec![]));
    assert_eq!(
        TrackRpc.list_filter(&params(&format!("room_id:{}", A))),
        Ok(vec![Filter::RoomId(id(A))])
    );
    assert_eq!(
        TrackRpc.list_filter(&params(&format!("owner_id:{}", B))),
        Ok(vec![Filter::OwnerId(id(B))])
    );
    assert_eq!(
        TrackRpc.list_filter(&params(&format!("room_id:{} AND owner_id:{}", A, B))),
        Ok(vec![Filter::RoomId(id(A)), Filter::OwnerId(id(B))])
    );
    assert_eq!(
        TrackRpc.list_filter(&params(&format!("owner_id:{} AND room_id:{}", B, A))),
        Ok(vec![Filter::OwnerId(id(B)), Filter::RoomId(id(A))])
    );
    assert_eq!(
        TrackRpc.list_filter(&params(&format!("holders.id:{}", C))),
        Err(Error::BadRequest)
    );
    assert_eq!(
        TrackRpc.list_filter(&params(&format!("room_id:{} AND holders.id:{}", A, C))),
        Err(Error::BadRequest)
    );
    assert_eq!(
        TrackRpc.list_filter(&params(&format!("room_id:{} OR owner_id:{}", A, B))),
        Err(Error::BadRequest)
    );
    assert_eq!(
        TrackRpc.list_filter(&params(&format!(
            "room_id:{} AND owner_id:{} AND room_id:{}",
            A, B, C
        ))),
        Err(Error::BadRequest)
    );
    assert_eq!(
        TrackRpc.list_filter(&params(&format!("(room_id:{}) AND owner_id:{}", A, B))),
        Err(Error::BadRequest)
    );
    assert_eq!(
        TrackRpc.list_filter(&params("tracks")),
        Err(Error::InvalidParameters(ParseError::NoAlternativeMatched))
    );
}

#[test]
fn folding_joins_from_the_left() {
    assert_eq!(fold_exprs(room(A), vec![]), room(A));
    let folded = fold_exprs(
        room(A),
        vec![(Oper::And, owner(B)), (Oper::Or, room(C)), (Oper::And, owner(A))],
    );
    let expected = Expr::And(
        Box::new(Expr::Or(
            Box::new(Expr::And(Box::new(room(A)), Box::new(owner(B)))),
            Box::new(room(C)),
        )),
        Box::new(owner(A)),
    );
    assert_eq!(folded, expected);
}

#[test]
fn expressions_as_text() {
    assert_eq!(
        Filter::RoomId(id(A)).to_string(),
        "RoomId(7945cf5b-2c73-4936-80cb-5cce27e9950d)"
    );
    assert_eq!(
        Filter::HolderId(id(C)).to_string(),
        "HolderId(30ae48f8-57c1-4704-ba48-19edb3c22b09)"
    );
    let input = format!(" ( owner_id:{}  OR holders.id:{} ) AND room_id:{} ", B, C, A);
    let parsed = Expr::from_str(&input).unwrap();
    assert_eq!(
        parsed.to_string(),
        "([(OwnerId(55e813bc-0c9b-4270-9f7f-81e5ffcfc9ff) OR HolderId(30ae48f8-57c1-4704-ba48-19edb3c22b09))] AND RoomId(7945cf5b-2c73-4936-80cb-5cce27e9950d))"
    );
}

fn fq_of(json: &str) -> Option<String> {
    let value: serde_json::Value = serde_json::from_str(json).unwrap();
    value
        .get("fq")
        .map(|fq| fq.as_str().unwrap().to_owned())
}

#[test]
fn deserialize_query_params_with_fq() {
    let json = r#"{ "fq": "123" }"#;
    let params = QueryParameters::new(fq_of(json));

    assert_eq!(params.fq, Some("123".to_owned()));
}

#[test]
fn deserialize_query_params_with_empty_fq() {
    let json = r#"{ "fq": "" }"#;
    let params = QueryParameters::new(fq_of(json));

    assert_eq!(params.fq, None);
}

#[test]
fn deserialize_query_params_without_fq() {
    let json = r#"{}"#;
    let params = QueryParameters::new(fq_of(json));

    assert_eq!(params.fq, None);
}
