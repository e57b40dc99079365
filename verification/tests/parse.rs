use bible_reference_rs::{parse, BibleReference, VerseLocation};

#[test]
fn test_verses_location() {
    let v = VerseLocation {
        chapters: vec![1],
        verses: Some(vec![1, 2]),
    };
    assert_eq!(v.chapters, vec![1]);
    assert_eq!(v.verses, Some(vec![1, 2]));
}

#[test]
fn test_chapter_location() {
    let v = VerseLocation {
        chapters: vec![1, 3],
        verses: None,
    };
    assert_eq!(v.chapters, vec![1, 3]);
    assert_eq!(v.verses, None);
}

#[test]
fn test_bible_reference() {
    let v = VerseLocation {
        chapters: vec![1],
        verses: Some(vec![1, 2]),
    };
    let r = BibleReference {
        book: String::from("Gen"),
        locations: vec![v],
    };
    assert_eq!(r.book, "Gen");
    assert_eq!(r.locations[0].chapters, [1]);
    assert_eq!(r.locations[0].verses, Some(vec![1, 2]));
}

#[test]
fn test_parse_simple() {
    let refs = parse("1Cor 1:1");
    assert_eq!(refs.len(), 1);
    assert_eq!(refs[0].book, "1Cor");
    assert_eq!(refs[0].locations[0].chapters, [1]);
    assert_eq!(refs[0].locations[0].verses, Some(vec![1]));
}

#[test]
fn test_parse_singleline() {
    let refs = parse("II Ki. 3:12-14, 25");

    assert_eq!(refs.len(), 1);
    assert_eq!(refs[0].book, "II Ki.");
    assert_eq!(refs[0].locations[0].chapters, [3]);
    assert_eq!(refs[0].locations[0].verses, Some(vec![12, 13, 14, 25]));
}

#[test]
fn test_wrong_input_1() {
    let refs = parse("123");
    assert_eq!(refs.len(), 0);
}

#[test]
fn test_wrong_input_2() {
    let refs = parse("1 234 3:4");
    assert_eq!(refs.len(), 0);
}

#[test]
fn test_parse_multiline() {
    let refs = parse(
        "Daily readings are Быт 1;\
             Исх 1:2,4;\
             1 Пет 5-8, 10.\
             Also take a look in:
             Rev 2,4;\
             Jh 1:2-4,7\
             Gen 1:1-2 2:2,5",
    );

    assert_eq!(refs.len(), 6);
    assert_eq!(refs[0].book, "Быт");
    assert_eq!(refs[0].locations[0].chapters, [1]);

    assert_eq!(refs[1].book, "Исх");
    assert_eq!(refs[1].locations[0].chapters, [1]);
    assert_eq!(refs[1].locations[0].verses, Some(vec![2, 4]));

    assert_eq!(refs[2].book, "1 Пет");
    assert_eq!(refs[2].locations[0].chapters, [5, 6, 7, 8, 10]);
    assert_eq!(refs[2].locations[0].verses, None);

    assert_eq!(refs[3].book, "Rev");
    assert_eq!(refs[3].locations[0].chapters, [2, 4]);
    assert_eq!(refs[3].locations[0].verses, None);

    assert_eq!(refs[4].book, "Jh");
    assert_eq!(refs[4].locations[0].chapters, [1]);
    assert_eq!(refs[4].locations[0].verses, Some(vec![2, 3, 4, 7]));

    assert_eq!(refs[5].book, "Gen");
    assert_eq!(refs[5].locations[0].chapters, [1]);
    assert_eq!(refs[5].locations[0].verses, Some(vec![1, 2]));
    assert_eq!(refs[5].locations[1].chapters, [2]);
    assert_eq!(refs[5].locations[1].verses, Some(vec![2, 5]));
}

#[test]
fn parse_two_citations() {
    let refs = parse("Gen 1:1-3, Act 9");

    assert_eq!(refs.len(), 2);
    assert_eq!(refs[0].book, "Gen");
    assert_eq!(refs[0].locations.len(), 1);
    assert_eq!(refs[0].locations[0].chapters, [1]);
    assert_eq!(refs[0].locations[0].verses, Some(vec![1, 2, 3]));
    assert_eq!(refs[1].book, "Act");
    assert_eq!(refs[1].locations.len(), 1);
    assert_eq!(refs[1].locations[0].chapters, [9]);
    assert_eq!(refs[1].locations[0].verses, None);
}

#[test]
fn parse_single_chapter() {
    for n in [0u8, 1, 9, 10, 42, 99, 100, 150, 199] {
        let refs = parse(&format!("Psalm {}", n));
        assert_eq!(refs.len(), 1);
        assert_eq!(refs[0].book, "Psalm");
        assert_eq!(refs[0].locations.len(), 1);
        assert_eq!(refs[0].locations[0].chapters, vec![n]);
        assert_eq!(refs[0].locations[0].verses, None);
    }
}

#[test]
fn parse_chapter_and_verse() {
    for (c, v) in [(1u8, 1u8), (3, 16), (119, 176), (0, 0), (199, 255)] {
        let refs = parse(&format!("John {}:{}", c, v));
        assert_eq!(refs.len(), 1);
        assert_eq!(refs[0].book, "John");
        assert_eq!(refs[0].locations.len(), 1);
        assert_eq!(refs[0].locations[0].chapters, vec![c]);
        assert_eq!(refs[0].locations[0].verses, Some(vec![v]));
    }
}

#[test]
fn parse_chapter_range() {
    let refs = parse("Gen 3-5");
    assert_eq!(refs.len(), 1);
    assert_eq!(refs[0].locations[0].chapters, [3, 4, 5]);
    assert_eq!(refs[0].locations[0].verses, None);

    let refs = parse("Gen 7-7");
    assert_eq!(refs[0].locations[0].chapters, [7]);

    let refs = parse("Gen 198-203");
    assert_eq!(refs[0].locations[0].chapters, [198, 199, 200, 201, 202, 203]);
}

#[test]
fn parse_chapter_sequence() {
    let refs = parse("Rev 2,4");
    assert_eq!(refs.len(), 1);
    assert_eq!(refs[0].locations[0].chapters, [2, 4]);

    let refs = parse("Rev 4,  2");
    assert_eq!(refs[0].locations[0].chapters, [4, 2]);
}

#[test]
fn parse_chapter_range_then_value() {
    let refs = parse("Mark 5-8,10");
    assert_eq!(refs.len(), 1);
    assert_eq!(refs[0].locations[0].chapters, [5, 6, 7, 8, 10]);

    let refs = parse("Mark 5-8,6");
    assert_eq!(refs[0].locations[0].chapters, [5, 6, 7, 8, 6]);

    let refs = parse("Mark 5-8,2");
    assert_eq!(refs[0].locations[0].chapters, [5, 6, 7, 8, 2]);
}

#[test]
fn parse_verse_notations() {
    let refs = parse("Luke 2:1-3");
    assert_eq!(refs[0].locations[0].chapters, [2]);
    assert_eq!(refs[0].locations[0].verses, Some(vec![1, 2, 3]));

    let refs = parse("Luke 2:1,3");
    assert_eq!(refs[0].locations[0].verses, Some(vec![1, 3]));

    let refs = parse("Luke 2:1-2,4");
    assert_eq!(refs[0].locations[0].verses, Some(vec![1, 2, 4]));

    let refs = parse("Luke 2: 7");
    assert_eq!(refs[0].locations[0].verses, Some(vec![7]));
}

#[test]
fn parse_keeps_last_of_repeated_parts() {
    let refs = parse("Gen 1,2,3");
    assert_eq!(refs.len(), 1);
    assert_eq!(refs[0].locations.len(), 1);
    assert_eq!(refs[0].locations[0].chapters, [1, 3]);

    let refs = parse("Gen 1-3-5");
    assert_eq!(refs[0].locations.len(), 1);
    assert_eq!(refs[0].locations[0].chapters, [1, 2, 3, 4, 5]);
}

#[test]
fn parse_descending_range_names_nothing() {
    let refs = parse("Gen 5-2");
    assert_eq!(refs.len(), 1);
    assert_eq!(refs[0].book, "Gen");
    assert_eq!(refs[0].locations.len(), 1);
    assert_eq!(refs[0].locations[0].chapters, Vec::<u8>::new());
    assert_eq!(refs[0].locations[0].verses, None);

    let refs = parse("Gen 5-2,7");
    assert_eq!(refs[0].locations[0].chapters, [7]);

    let refs = parse("Gen 1:5-2");
    assert_eq!(refs[0].locations[0].chapters, [1]);
    assert_eq!(refs[0].locations[0].verses, Some(Vec::<u8>::new()));
}

#[test]
fn parse_skips_location_with_number_too_large() {
    let refs = parse("Gen 1-300");
    assert_eq!(refs.len(), 1);
    assert_eq!(refs[0].book, "Gen");
    assert_eq!(refs[0].locations, Vec::new());

    let refs = parse("Gen 1:256");
    assert_eq!(refs.len(), 1);
    assert_eq!(refs[0].locations, Vec::new());

    let refs = parse("Gen 1:2,999");
    assert_eq!(refs.len(), 1);
    assert_eq!(refs[0].locations, Vec::new());

    let refs = parse("Gen 1,256:3");
    assert_eq!(refs.len(), 1);
    assert_eq!(refs[0].locations, Vec::new());

    let refs = parse("Gen 1:2-1000");
    assert_eq!(refs.len(), 1);
    assert_eq!(refs[0].locations, Vec::new());
}

#[test]
fn parse_skips_only_the_unreadable_location() {
    let refs = parse("Gen 1:256 2:3; Rev 4-300 5 6:7");
    assert_eq!(refs.len(), 2);
    assert_eq!(refs[0].book, "Gen");
    assert_eq!(
        refs[0].locations,
        vec![VerseLocation { chapters: vec![2], verses: Some(vec![3]) }]
    );
    assert_eq!(refs[1].book, "Rev");
    assert_eq!(
        refs[1].locations,
        vec![
            VerseLocation { chapters: vec![5], verses: None },
            VerseLocation { chapters: vec![6], verses: Some(vec![7]) },
        ]
    );
}

#[test]
fn parse_keeps_numbers_up_to_255() {
    let refs = parse("Gen 1-255");
    assert_eq!(refs[0].locations.len(), 1);
    assert_eq!(refs[0].locations[0].chapters.len(), 255);
    assert_eq!(refs[0].locations[0].chapters[254], 255);

    let refs = parse("Gen 1:255");
    assert_eq!(refs[0].locations[0].verses, Some(vec![255]));

    let refs = parse("Gen 1:0255");
    assert_eq!(refs[0].locations[0].verses, Some(vec![255]));
}

#[test]
fn parse_skips_location_with_digits_of_other_scripts() {
    let refs = parse("Gen 1:\u{0663}");
    assert_eq!(refs.len(), 1);
    assert_eq!(refs[0].book, "Gen");
    assert_eq!(refs[0].locations, Vec::new());

    let refs = parse("Gen 1-\u{0967}\u{0968} 2");
    assert_eq!(refs.len(), 1);
    assert_eq!(refs[0].locations, vec![VerseLocation { chapters: vec![2], verses: None }]);
}

#[test]
fn parse_without_citation() {
    assert_eq!(parse("").len(), 0);
    assert_eq!(parse("no numbers here").len(), 0);
    assert_eq!(parse("12:3-4,5").len(), 0);
    assert_eq!(parse("; 7 ,8").len(), 0);
}

#[test]
fn parse_book_labels() {
    let refs = parse("3 King 1:3-4");
    assert_eq!(refs.len(), 1);
    assert_eq!(refs[0].book, "3 King");
    assert_eq!(refs[0].locations[0].chapters, [1]);
    assert_eq!(refs[0].locations[0].verses, Some(vec![3, 4]));

    let refs = parse("IIII Ezra 2");
    assert_eq!(refs[0].book, "IIII Ezra");

    let refs = parse("IV Ezra 2");
    assert_eq!(refs[0].book, "Ezra");

    let refs = parse("III Jn. 1");
    assert_eq!(refs[0].book, "III Jn.");

    let refs = parse("Mt.5:3");
    assert_eq!(refs[0].book, "Mt.");
    assert_eq!(refs[0].locations[0].chapters, [5]);
    assert_eq!(refs[0].locations[0].verses, Some(vec![3]));
}

#[test]
fn parse_keeps_order_and_scope() {
    let refs = parse("see Jn 3:16; Rom 8 9:1,3 and Ps 23");
    assert_eq!(refs.len(), 3);
    assert_eq!(refs[0].book, "Jn");
    assert_eq!(refs[0].locations.len(), 1);
    assert_eq!(refs[0].locations[0].chapters, [3]);
    assert_eq!(refs[0].locations[0].verses, Some(vec![16]));
    assert_eq!(refs[1].book, "Rom");
    assert_eq!(refs[1].locations.len(), 2);
    assert_eq!(refs[1].locations[0].chapters, [8]);
    assert_eq!(refs[1].locations[0].verses, None);
    assert_eq!(refs[1].locations[1].chapters, [9]);
    assert_eq!(refs[1].locations[1].verses, Some(vec![1, 3]));
    assert_eq!(refs[2].book, "Ps");
    assert_eq!(refs[2].locations.len(), 1);
    assert_eq!(refs[2].locations[0].chapters, [23]);
}

#[test]
fn parse_of_joined_texts() {
    let parts = [
        "",
        "Gen 1:1-2 2:2,5",
        "see Jn 3:16",
        "123",
        "1 Пет 5-8, 10",
        "Rev 2,4 and Ps 23",
        "II Ki. 3:12-14, 25",
    ];
    for first in parts {
        for second in parts {
            let joined = parse(&format!("{};{}", first, second));
            let mut expected = parse(first);
            expected.extend(parse(second));
            assert_eq!(joined.len(), expected.len());
            for i in 0..expected.len() {
                assert_eq!(joined[i].book, expected[i].book);
                assert_eq!(joined[i].locations, expected[i].locations);
            }
        }
    }
}

#[test]
fn parse_is_repeatable() {
    let text = "Gen 1:1-2 2:2,5; Rev 2,4";
    let first = parse(text);
    let second = parse(text);
    assert_eq!(first.len(), second.len());
    for i in 0..first.len() {
        assert_eq!(first[i].book, second[i].book);
        assert_eq!(first[i].locations, second[i].locations);
    }
}

#[test]
fn parse_value_after_descending_range() {
    let refs = parse("Gen 5-2,250");
    assert_eq!(refs.len(), 1);
    assert_eq!(refs[0].locations.len(), 1);
    assert_eq!(refs[0].locations[0].chapters, [250]);

    let refs = parse("Gen 250");
    assert_eq!(refs.len(), 1);
    assert_eq!(refs[0].locations.len(), 2);
    assert_eq!(refs[0].locations[0].chapters, [25]);
    assert_eq!(refs[0].locations[1].chapters, [0]);
}

fn render_numbers(numbers: &[u8]) -> String {
    let consecutive = |part: &[u8]| part.windows(2).all(|w| w[0] < 255 && w[1] == w[0] + 1);
    let n = numbers.len();
    if n == 1 {
        format!("{}", numbers[0])
    } else if n == 2 {
        format!("{},{}", numbers[0], numbers[1])
    } else if consecutive(numbers) {
        format!("{}-{}", numbers[0], numbers[n - 1])
    } else {
        assert!(consecutive(&numbers[..n - 1]));
        format!("{}-{},{}", numbers[0], numbers[n - 2], numbers[n - 1])
    }
}

fn render(refs: &[BibleReference]) -> String {
    let mut citations: Vec<String> = Vec::new();
    for reference in refs {
        let mut text = reference.book.clone();
        for location in &reference.locations {
            text.push(' ');
            text.push_str(&render_numbers(&location.chapters));
            if let Some(verses) = &location.verses {
                text.push(':');
                text.push_str(&render_numbers(verses));
            }
        }
        citations.push(text);
    }
    citations.join("; ")
}

#[test]
fn parse_of_rendered_output_is_the_same() {
    let first = parse(
        "Daily readings are Быт 1; Исх 1:2,4; 1 Пет 5-8, 10. Also: Rev 2,4; \
         Jh 1:2-4,7 Gen 1:1-2 2:2,5 and II Ki. 3:12-14, 25",
    );
    assert_eq!(first.len(), 7);
    let text = render(&first);
    assert_eq!(
        text,
        "Быт 1; Исх 1:2,4; 1 Пет 5-8,10; Rev 2,4; Jh 1:2-4,7; Gen 1:1,2 2:2,5; II Ki. 3:12-14,25"
    );
    let second = parse(&text);
    assert_eq!(first.len(), second.len());
    for i in 0..first.len() {
        assert_eq!(first[i].book, second[i].book);
        assert_eq!(first[i].locations, second[i].locations);
    }
}
