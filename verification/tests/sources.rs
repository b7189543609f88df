use location_history::gtimeline::try_parse_locations;
use location_history::json::source::Bytes;
use location_history::json::{ByteSource, JsonTokenizer, LexError, Token};

/// Hands out its bytes in chunks of a given size.
struct Chunked {
    data: Vec<u8>,
    position: usize,
    chunk: usize,
}

impl ByteSource for Chunked {
    fn remaining(&self) -> Bytes {
        unreachable!("the model of a source is never computed")
    }

    fn read(&mut self, buf: &mut [u8; 512]) -> usize {
        let count = self.chunk.min(self.data.len() - self.position);
        buf[..count].copy_from_slice(&self.data[self.position..self.position + count]);
        self.position += count;
        count
    }
}

fn tokens_of<T: ByteSource>(source: T) -> (Vec<Token>, Option<LexError>) {
    let mut tokenizer = JsonTokenizer::new(source);
    let mut tokens = Vec::new();
    loop {
        match tokenizer.try_next_token() {
            Ok(Some(token)) => tokens.push(token),
            Ok(None) => return (tokens, None),
            Err(error) => return (tokens, Some(error)),
        }
    }
}

#[test]
fn slices_are_read_in_chunks_of_512() {
    let data: Vec<u8> = (0..1000u32).map(|i| (i % 251) as u8).collect();
    let mut source: &[u8] = &data;
    let mut buf = [0u8; 512];
    assert_eq!(source.read(&mut buf), 512);
    assert_eq!(&buf[..], &data[..512]);
    assert_eq!(source.len(), 488);
    assert_eq!(source.read(&mut buf), 488);
    assert_eq!(&buf[..488], &data[512..]);
    assert_eq!(source.read(&mut buf), 0);
    assert_eq!(source.read(&mut buf), 0);
}

#[test]
fn the_size_of_the_chunks_does_not_matter() {
    let text = r#"  {"locations" : [ {"timestampMs":"1354530532487", "latitudeE7": -498746569,
        "n": [true, false, null, 1.5, -0.25, "a string",, ] } , 12345678 ] } "#;
    let expected = tokens_of(text.as_bytes());
    assert_eq!(expected.0.len(), 21);
    assert_eq!(expected.1, None);
    for chunk in [1, 2, 3, 7, 64, 511, 512] {
        let source = Chunked { data: text.as_bytes().to_vec(), position: 0, chunk };
        assert_eq!(tokens_of(source), expected, "chunks of {}", chunk);
    }
}

#[test]
fn failures_do_not_depend_on_the_chunks() {
    for text in ["[1, 2, tru]", "[\"abc", "{\"a\": 1.2.3}", "[1, \u{e9}]", "[12 \"a\" @"] {
        let expected = tokens_of(text.as_bytes());
        assert!(expected.1.is_some());
        for chunk in [1, 2, 5, 512] {
            let source = Chunked { data: text.as_bytes().to_vec(), position: 0, chunk };
            assert_eq!(tokens_of(source), expected, "{:?} in chunks of {}", text, chunk);
        }
    }
}

#[test]
fn locations_from_a_source_in_small_chunks() {
    let text = r#"{"locations":[
        {"timestampMs":"1000","latitudeE7":1,"longitudeE7":2,"accuracy":3,
         "activity":[{"timestampMs":"1000","activity":[{"type":"STILL","confidence":100}]}]},
        {"timestampMs":"2000","latitudeE7":4,"longitudeE7":5,"accuracy":6}]}"#;
    let source = Chunked { data: text.as_bytes().to_vec(), position: 0, chunk: 3 };
    let mut locations = try_parse_locations(JsonTokenizer::new(source)).unwrap();
    let first = locations.try_next().unwrap().unwrap();
    assert_eq!(first.classifications.len(), 1);
    assert_eq!(first.accuracy, 3);
    let second = locations.try_next().unwrap().unwrap();
    assert_eq!(second.coordinates.x, 5);
    assert!(locations.try_next().is_none());
}
