use sentiment_api::calendar::{first_second, last_second, parse_date};
use sentiment_api::create_response::{create_response, ResponseFormat};
use sentiment_api::data_structs::{DateTimeRangeQuery, Post, SentimentThresholdQuery};
use sentiment_api::get_all_data::get_all_data;
use sentiment_api::get_data_by_date::{
    date_range_statement, get_data_by_date, BAD_END_DATE, BAD_START_DATE,
};
use sentiment_api::get_data_by_sentiment_threshold::get_data_by_sentiment_threshold;
use sentiment_api::index::{index, GREETING};
use sentiment_api::reply::{
    frame, respond, respond_with_rows, QueryOutcome, Reply, Status, FETCH_FAILED, FORMAT_FAILED,
    NO_DATA,
};
use sentiment_api::score::Score;
use sentiment_api::statement::{Parameter, Statement};

fn post(id: i32, published_at: i64, sentiment: &str) -> Post {
    Post {
        id,
        published_at,
        url: format!("u{}", id),
        subreddit: "r".to_string(),
        title: "t".to_string(),
        author: "a".to_string(),
        contained_url: "c".to_string(),
        sentiment: Score::parse(sentiment).unwrap(),
        content: format!("post {}", id),
    }
}

fn dates(start: &str, end: &str) -> DateTimeRangeQuery {
    DateTimeRangeQuery { start: start.to_string(), end: end.to_string() }
}

fn bounds(lower: f64, upper: f64) -> SentimentThresholdQuery {
    SentimentThresholdQuery {
        upper: Score::parse(&serde_json::to_string(&upper).unwrap()).unwrap(),
        lower: Score::parse(&serde_json::to_string(&lower).unwrap()).unwrap(),
    }
}

fn described(parameters: &[Parameter]) -> Vec<String> {
    parameters
        .iter()
        .map(|parameter| match parameter {
            Parameter::Integer(value) => format!("int {}", value),
            Parameter::BigInteger(value) => format!("bigint {}", value),
            Parameter::Double(value) => format!("double {}", value.as_str()),
        })
        .collect()
}

fn rejected(plan: Result<Statement, Reply>) -> Reply {
    match plan {
        Ok(_) => panic!("a statement was made"),
        Err(reply) => reply,
    }
}

fn accepted(plan: Result<Statement, Reply>) -> Statement {
    match plan {
        Ok(statement) => statement,
        Err(reply) => panic!("rejected: {}", reply.body),
    }
}

#[test]
fn the_index_greets() {
    let reply = index();
    assert_eq!(reply.status, Status::Success);
    assert_eq!(reply.status.code(), 200);
    assert_eq!(reply.body, "This is the index of the tennis db api. Fire away with your request!");
    assert_eq!(reply.body, GREETING);
}

#[test]
fn status_codes() {
    assert_eq!(Status::Success.code(), 200);
    assert_eq!(Status::BadRequest.code(), 400);
    assert_eq!(Status::InternalServerError.code(), 500);
}

#[test]
fn without_a_key_every_post_is_asked_for() {
    let statement = get_all_data(None);
    assert!(matches!(statement, Statement::AllPosts));
    assert_eq!(statement.sql(), "SELECT * FROM posts");
    assert!(statement.parameters().is_empty());
}

#[test]
fn with_a_key_exactly_that_post_is_asked_for() {
    for key in [123, 0, -1, i32::MAX, i32::MIN] {
        let statement = get_all_data(Some(key));
        assert!(matches!(statement, Statement::PostById { post_id } if post_id == key));
        assert_eq!(statement.sql(), "SELECT * FROM posts WHERE post_id = $1");
        assert_eq!(described(&statement.parameters()), [format!("int {}", key)]);
    }
}

#[test]
fn sentiment_bounds_are_exclusive_and_go_lower_first() {
    let statement = get_data_by_sentiment_threshold(bounds(-0.3, 0.9));
    assert_eq!(statement.sql(), "SELECT * FROM posts WHERE sentiment > $1 AND sentiment < $2");
    assert_eq!(described(&statement.parameters()), ["double -0.3", "double 0.9"]);
    match statement {
        Statement::SentimentBetween { lower, upper } => {
            assert_eq!(lower.as_str(), "-0.3");
            assert_eq!(upper.as_str(), "0.9");
        }
        _ => panic!("another statement"),
    }
}

#[test]
fn sentiment_bounds_the_wrong_way_round_are_handed_on() {
    let statement = get_data_by_sentiment_threshold(bounds(0.9, -0.3));
    assert_eq!(described(&statement.parameters()), ["double 0.9", "double -0.3"]);
    let statement = get_data_by_sentiment_threshold(bounds(0.5, 0.5));
    assert_eq!(described(&statement.parameters()), ["double 0.5", "double 0.5"]);
}

fn selected_by(statement: &Statement, sentiment: f64) -> bool {
    assert_eq!(statement.sql(), "SELECT * FROM posts WHERE sentiment > $1 AND sentiment < $2");
    let values: Vec<f64> = statement
        .parameters()
        .iter()
        .map(|parameter| match parameter {
            Parameter::Double(value) => value.as_str().parse::<f64>().unwrap(),
            _ => panic!("another kind of parameter"),
        })
        .collect();
    sentiment > values[0] && sentiment < values[1]
}

#[test]
fn a_score_of_one_half_is_inside_the_wide_bounds_and_outside_the_narrow_ones() {
    let wide = get_data_by_sentiment_threshold(bounds(-0.3, 0.9));
    let narrow = get_data_by_sentiment_threshold(bounds(0.6, 0.9));
    assert!(selected_by(&wide, 0.5));
    assert!(!selected_by(&narrow, 0.5));
    assert!(!selected_by(&wide, -0.3));
    assert!(!selected_by(&wide, 0.9));
}

#[test]
fn a_date_range_runs_from_midnight_to_the_last_second() {
    let statement = accepted(get_data_by_date(dates("01-12-2020", "28-02-2021")));
    assert_eq!(statement.sql(), "SELECT * FROM posts WHERE date >= $1 AND date <= $2");
    assert_eq!(
        described(&statement.parameters()),
        ["bigint 1606780800", "bigint 1614556799"]
    );
    assert!(matches!(
        statement,
        Statement::PublishedBetween { start: 1_606_780_800, end: 1_614_556_799 }
    ));
}

#[test]
fn a_range_of_one_day_covers_that_day() {
    let statement = accepted(get_data_by_date(dates("01-01-1970", "01-01-1970")));
    assert!(matches!(statement, Statement::PublishedBetween { start: 0, end: 86_399 }));
}

#[test]
fn days_the_wrong_way_round_are_handed_on() {
    let statement = accepted(get_data_by_date(dates("28-02-2021", "01-12-2020")));
    match statement {
        Statement::PublishedBetween { start, end } => {
            assert_eq!(start, 1_614_470_400);
            assert_eq!(end, 1_606_867_199);
            assert!(start > end);
        }
        _ => panic!("another statement"),
    }
}

#[test]
fn a_date_that_does_not_exist_is_a_bad_request() {
    let reply = rejected(get_data_by_date(dates("31-02-2021", "01-03-2021")));
    assert_eq!(reply.status, Status::BadRequest);
    assert_eq!(reply.status.code(), 400);
    assert_eq!(reply.body, "An error occurred while parsing the start date.");
    let reply = rejected(get_data_by_date(dates("01-12-2020", "31-02-2021")));
    assert_eq!(reply.status, Status::BadRequest);
    assert_eq!(reply.body, "An error occurred while parsing the end date.");
}

#[test]
fn the_first_bad_date_is_the_one_reported() {
    let reply = rejected(get_data_by_date(dates("yesterday", "tomorrow")));
    assert_eq!(reply.status, Status::BadRequest);
    assert_eq!(reply.body, BAD_START_DATE);
    let reply = rejected(get_data_by_date(dates("", "")));
    assert_eq!(reply.body, BAD_START_DATE);
    let reply = rejected(get_data_by_date(dates("01-01-2021", "")));
    assert_eq!(reply.body, BAD_END_DATE);
}

#[test]
fn day_numbers_make_the_statement() {
    let statement = accepted(date_range_statement(Some(0), Some(1)));
    assert!(matches!(statement, Statement::PublishedBetween { start: 0, end: 172_799 }));
    let statement = accepted(date_range_statement(Some(-1), Some(-1)));
    assert!(matches!(statement, Statement::PublishedBetween { start: -86_400, end: -1 }));
    assert_eq!(rejected(date_range_statement(None, Some(1))).body, BAD_START_DATE);
    assert_eq!(rejected(date_range_statement(Some(1), None)).body, BAD_END_DATE);
    assert_eq!(rejected(date_range_statement(None, None)).body, BAD_START_DATE);
}

#[test]
fn a_date_range_selects_whole_days() {
    let first = parse_date("01-12-2020").unwrap();
    let last = parse_date("03-12-2020").unwrap();
    let (start, end) = match accepted(date_range_statement(Some(first), Some(last))) {
        Statement::PublishedBetween { start, end } => (start, end),
        _ => panic!("another statement"),
    };
    assert_eq!(start, first_second(first));
    assert_eq!(end, last_second(last));
    for timestamp in [start - 1, start, start + 1, start + 86_400, end - 1, end, end + 1] {
        let day = timestamp.div_euclid(86_400);
        let inside = start <= timestamp && timestamp <= end;
        assert_eq!(inside, i64::from(first) <= day && day <= i64::from(last));
    }
}

#[test]
fn no_rows_give_the_no_data_message() {
    for format in [ResponseFormat::Text, ResponseFormat::Json] {
        let reply = respond_with_rows(&Vec::new(), format);
        assert_eq!(reply.status, Status::Success);
        assert_eq!(reply.status.code(), 200);
        assert_eq!(reply.body, "No data available for your request.");
        let reply = respond(&QueryOutcome::Rows(Vec::new()), format);
        assert_eq!(reply.status, Status::Success);
        assert_eq!(reply.body, NO_DATA);
    }
}

#[test]
fn a_failed_statement_is_a_server_error() {
    for format in [ResponseFormat::Text, ResponseFormat::Json] {
        let reply = respond(&QueryOutcome::Failed, format);
        assert_eq!(reply.status, Status::InternalServerError);
        assert_eq!(reply.status.code(), 500);
        assert_eq!(reply.body, FETCH_FAILED);
    }
}

#[test]
fn one_row_is_shown_alone() {
    let rows = vec![post(7, 0, "0.5")];
    let line = create_response(&rows[0], ResponseFormat::Text).unwrap();
    let object = create_response(&rows[0], ResponseFormat::Json).unwrap();
    let reply = respond_with_rows(&rows, ResponseFormat::Text);
    assert_eq!(reply.status, Status::Success);
    assert_eq!(reply.body, line);
    let reply = respond_with_rows(&rows, ResponseFormat::Json);
    assert_eq!(reply.status, Status::Success);
    assert_eq!(reply.body, format!("[{}]", object));
}

#[test]
fn lines_of_text_are_separated_by_line_breaks() {
    let rows = vec![post(1, 0, "0.1"), post(2, 60, "0.2"), post(3, 120, "0.3")];
    let reply = respond_with_rows(&rows, ResponseFormat::Text);
    assert_eq!(reply.status, Status::Success);
    let lines: Vec<&str> = reply.body.split('\n').collect();
    assert_eq!(lines.len(), 3);
    for (line, row) in lines.iter().zip(&rows) {
        assert_eq!(*line, create_response(row, ResponseFormat::Text).unwrap());
    }
    assert_eq!(
        lines[1],
        "id: 2, date: 01-01-1970, 00:01, url: u2, subreddit: r, title: t, author: a, \
         url_contained: c, sentiment: 0.2, content: post 2"
    );
}

#[test]
fn json_objects_become_one_array() {
    let rows = vec![post(1, 0, "0.1"), post(2, 60, "0.2")];
    let reply = respond_with_rows(&rows, ResponseFormat::Json);
    assert_eq!(reply.status, Status::Success);
    assert_eq!(
        reply.body,
        "[{\"id\":1,\"date\":\"01-01-1970, 00:00\",\"url\":\"u1\",\"subreddit\":\"r\",\
         \"title\":\"t\",\"author\":\"a\",\"url_contained\":\"c\",\"sentiment\":0.1,\
         \"content\":\"post 1\"},{\"id\":2,\"date\":\"01-01-1970, 00:01\",\"url\":\"u2\",\
         \"subreddit\":\"r\",\"title\":\"t\",\"author\":\"a\",\"url_contained\":\"c\",\
         \"sentiment\":0.2,\"content\":\"post 2\"}]"
    );
    let value: serde_json::Value = serde_json::from_str(&reply.body).unwrap();
    let items = value.as_array().unwrap();
    assert_eq!(items.len(), 2);
    assert_eq!(items[0]["id"].as_i64(), Some(1));
    assert_eq!(items[1]["id"].as_i64(), Some(2));
}

#[test]
fn one_row_that_cannot_be_written_fails_the_request() {
    for format in [ResponseFormat::Text, ResponseFormat::Json] {
        for bad in 0..3 {
            let mut rows = vec![post(1, 0, "0.1"), post(2, 60, "0.2"), post(3, 120, "0.3")];
            rows[bad].published_at = i64::MAX;
            let reply = respond_with_rows(&rows, format);
            assert_eq!(reply.status, Status::InternalServerError);
            assert_eq!(reply.body, FORMAT_FAILED);
        }
    }
}

#[test]
fn written_rows_are_framed_by_format() {
    let units = vec!["a".to_string(), "b".to_string()];
    assert_eq!(frame(&units, ResponseFormat::Text), "a\nb");
    assert_eq!(frame(&units, ResponseFormat::Json), "[a,b]");
    assert_eq!(frame(&Vec::new(), ResponseFormat::Text), "");
    assert_eq!(frame(&Vec::new(), ResponseFormat::Json), "[]");
}

#[test]
fn replies_hold_their_own_rows_only() {
    let first = QueryOutcome::Rows(vec![post(1, 0, "0.1"), post(2, 0, "0.2")]);
    let second = QueryOutcome::Rows(vec![post(3, 0, "0.3")]);
    let mut replies = Vec::new();
    for _ in 0..3 {
        replies.push((
            respond(&first, ResponseFormat::Text).body,
            respond(&second, ResponseFormat::Text).body,
        ));
    }
    for (one, other) in &replies {
        assert_eq!(one, &replies[0].0);
        assert_eq!(other, &replies[0].1);
        assert!(one.contains("post 1") && one.contains("post 2") && !one.contains("post 3"));
        assert!(other.contains("post 3") && !other.contains("post 1") && !other.contains("post 2"));
    }
}

#[test]
fn a_reply_is_made_of_a_status_and_a_body() {
    let reply = Reply::new(Status::BadRequest, "no");
    assert_eq!(reply.status, Status::BadRequest);
    assert_eq!(reply.body, "no");
}

#[test]
fn bounds_are_read_from_their_numerals() {
    use_bounds("-0.3", "0.9");
    use_bounds("0.9", "-0.3");
    use_bounds("1e-7", "1E+3");
}

fn use_bounds(lower: &str, upper: &str) {
    match sentiment_api::get_data_by_sentiment_threshold::read_bounds(lower, upper) {
        Ok(query) => {
            assert_eq!(query.lower.as_str(), lower);
            assert_eq!(query.upper.as_str(), upper);
        }
        Err(reply) => panic!("rejected: {}", reply.body),
    }
}

fn refused_bounds(lower: &str, upper: &str) -> Reply {
    match sentiment_api::get_data_by_sentiment_threshold::read_bounds(lower, upper) {
        Ok(_) => panic!("bounds were read"),
        Err(reply) => reply,
    }
}

#[test]
fn a_bound_that_is_no_number_is_a_bad_request() {
    let reply = refused_bounds("null", "0.9");
    assert_eq!(reply.status, Status::BadRequest);
    assert_eq!(reply.body, "An error occurred while parsing the lower bound.");
    let reply = refused_bounds("-0.3", "high");
    assert_eq!(reply.status, Status::BadRequest);
    assert_eq!(reply.body, "An error occurred while parsing the upper bound.");
    let reply = refused_bounds("", "");
    assert_eq!(reply.body, "An error occurred while parsing the lower bound.");
}

#[test]
fn formats_are_named_in_lower_case() {
    assert!(matches!(ResponseFormat::from_name("text"), Some(ResponseFormat::Text)));
    assert!(matches!(ResponseFormat::from_name("json"), Some(ResponseFormat::Json)));
    for name in ["", "Text", "JSON", "text ", "xml", "jsont"] {
        assert!(ResponseFormat::from_name(name).is_none(), "{:?}", name);
    }
}

#[test]
fn a_lookup_shows_one_post_or_the_no_data_message() {
    let table = vec![post(1, 0, "0.1"), post(2, 60, "0.2"), post(3, 120, "0.3")];
    for key in [0, 1, 2, 3, 4] {
        let statement = get_all_data(Some(key));
        let wanted = match statement {
            Statement::PostById { post_id } => post_id,
            _ => panic!("another statement"),
        };
        let rows: Vec<Post> = table
            .iter()
            .filter(|row| row.id == wanted)
            .map(|row| post(row.id, row.published_at, row.sentiment.as_str()))
            .collect();
        assert!(rows.len() <= 1);
        let reply = respond_with_rows(&rows, ResponseFormat::Json);
        assert_eq!(reply.status, Status::Success);
        if (1..=3).contains(&key) {
            let value: serde_json::Value = serde_json::from_str(&reply.body).unwrap();
            let items = value.as_array().unwrap();
            assert_eq!(items.len(), 1);
            assert_eq!(items[0]["id"].as_i64(), Some(i64::from(key)));
        } else {
            assert_eq!(reply.body, NO_DATA);
        }
    }
}

#[test]
fn routes() {
    assert_eq!(sentiment_api::index::ROUTE, "/");
    assert_eq!(sentiment_api::get_all_data::LIST_ROUTE, "/posts/");
    assert_eq!(sentiment_api::get_all_data::LOOKUP_ROUTE, "/posts/{post_id}");
    assert_eq!(
        sentiment_api::get_data_by_sentiment_threshold::ROUTE,
        "/posts/sentiment_threshold"
    );
    assert_eq!(sentiment_api::get_data_by_date::ROUTE, "/posts/date");
}

#[test]
fn columns_are_read_by_position() {
    use_columns();
}

fn use_columns() {
    let columns = [
        sentiment_api::data_structs::ID_COLUMN,
        sentiment_api::data_structs::DATE_COLUMN,
        sentiment_api::data_structs::URL_COLUMN,
        sentiment_api::data_structs::SUBREDDIT_COLUMN,
        sentiment_api::data_structs::TITLE_COLUMN,
        sentiment_api::data_structs::AUTHOR_COLUMN,
        sentiment_api::data_structs::URL_CONTAINED_COLUMN,
        sentiment_api::data_structs::SENTIMENT_COLUMN,
        sentiment_api::data_structs::CONTENT_COLUMN,
    ];
    assert_eq!(columns, [0, 1, 3, 4, 5, 6, 7, 8, 9]);
}
