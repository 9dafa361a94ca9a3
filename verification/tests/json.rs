use datetime_core::date::{Date, DateRecord};
use datetime_core::time::{Time, TimeRecord};
use serde_json::{Number, Value};

fn date_to_json(date: &Date) -> String {
    let record = date.to_record();
    let mut fields = serde_json::Map::new();
    fields.insert("year".to_string(), Value::Number(Number::from(record.year)));
    fields.insert("month".to_string(), Value::Number(Number::from(record.month)));
    fields.insert("day".to_string(), Value::Number(Number::from(record.day)));
    fields.insert("weekday".to_string(), Value::Number(Number::from(record.weekday)));
    serde_json::to_string(&Value::Object(fields)).unwrap()
}

fn date_from_json(text: &str) -> Option<Date> {
    let value: Value = serde_json::from_str(text).ok()?;
    let record = DateRecord {
        year: i32::try_from(value.get("year")?.as_i64()?).ok()?,
        month: u8::try_from(value.get("month")?.as_u64()?).ok()?,
        day: u8::try_from(value.get("day")?.as_u64()?).ok()?,
        weekday: u8::try_from(value.get("weekday")?.as_u64()?).ok()?,
    };
    Date::from_record(&record).ok()
}

#[test]
fn dates_survive_json() {
    for (y, m, d) in [(2020, 2, 29), (1999, 12, 31), (0, 1, 1), (i32::MAX, 12, 31)] {
        let date = Date::new(y, m, d).unwrap();
        let text = date_to_json(&date);
        assert_eq!(date_from_json(&text), Some(date));
    }
    assert_eq!(
        date_to_json(&Date::new(2020, 1, 1).unwrap()),
        "{\"day\":1,\"month\":1,\"weekday\":4,\"year\":2020}"
    );
    assert_eq!(date_from_json("{\"day\":1,\"month\":1,\"weekday\":5,\"year\":2020}"), None);
    assert_eq!(date_from_json("{\"day\":30,\"month\":2,\"weekday\":1,\"year\":2020}"), None);
    assert_eq!(date_from_json("{\"day\":1}"), None);
}

#[test]
fn times_survive_json() {
    let time = Time::new(23, 59, 58, Some(7), None).unwrap();
    let record = time.to_record();
    let mut fields = serde_json::Map::new();
    fields.insert("hour".to_string(), Value::Number(Number::from(record.hour)));
    fields.insert("minute".to_string(), Value::Number(Number::from(record.minute)));
    fields.insert("seconds".to_string(), Value::Number(Number::from(record.seconds)));
    match record.milliseconds {
        Some(ms) => {
            fields.insert("milliseconds".to_string(), Value::Number(Number::from(ms)));
        }
        None => {}
    }
    match record.offset {
        Some(offset) => {
            fields.insert("offset".to_string(), Value::Number(Number::from(offset)));
        }
        None => {}
    }
    let text = serde_json::to_string(&Value::Object(fields)).unwrap();
    assert_eq!(text, "{\"hour\":23,\"milliseconds\":7,\"minute\":59,\"seconds\":58}");
    let value: Value = serde_json::from_str(&text).unwrap();
    let number = |name: &str| value.get(name).and_then(Value::as_i64);
    let back = TimeRecord {
        hour: number("hour").unwrap() as u8,
        minute: number("minute").unwrap() as u8,
        seconds: number("seconds").unwrap() as u8,
        milliseconds: number("milliseconds").map(|ms| ms as u16),
        offset: number("offset").map(|offset| offset as i32),
    };
    assert_eq!(Time::from_record(&back).unwrap(), time);
}
