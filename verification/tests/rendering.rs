use pgml_head::{DefaultHeadTemplate, Head};

#[test]
fn default() {
    let head = DefaultHeadTemplate::new(None);
    let rendered = head.render();

    assert!(
        rendered.contains("<head>")
            && rendered.contains("<title> \u{2013} PostgresML</title>")
            && rendered.contains("<meta name=\"description\" content=\"Train and deploy models to make online predictions using only SQL, with an open source Postgres extension.\">")
            && !rendered.contains("preload")
            && rendered.contains("</head>")
    )
}

#[test]
fn set_head() {
    let mut head_info = Head::new()
        .title("test title")
        .description("test description")
        .image("image/test_image.jpg");
    head_info.add_preload("image/test_preload.webp");

    let head = DefaultHeadTemplate::new(Some(head_info));
    let rendered = head.render();
    assert!(
        rendered.contains("<title>test title \u{2013} PostgresML</title>")
            && rendered.contains("<meta name=\"description\" content=\"test description\">")
            && rendered.contains("<meta property=\"og:image\" content=\"image/test_image.jpg\">")
            && !rendered.contains("<link rel=\"preload\" fetchpriority=\"high\" as=\"image\" href=\"image/test_preload.webp\" type=\"image/webp\">")
    );
}

#[test]
fn exact_default_output() {
    let rendered = DefaultHeadTemplate::new(None).render();
    assert_eq!(
        rendered,
        "<head>\n<title> \u{2013} PostgresML</title>\n<meta name=\"description\" content=\"Train and deploy models to make online predictions using only SQL, with an open source Postgres extension.\">\n</head>\n"
    );
}

#[test]
fn render_twice_identical() {
    let mut head = Head::new().title("t").description("d");
    head.add_preload("p.webp");
    let template = DefaultHeadTemplate::new(Some(head));
    let first = template.render();
    let second = template.render();
    assert_eq!(first, second);
}

#[test]
fn preloads_render_in_order() {
    let mut head = Head::new();
    head.add_preload("one.webp");
    head.add_preload("two.webp");
    head.add_preload("one.webp");
    let rendered = DefaultHeadTemplate::new(Some(head)).render();
    let first = "<link rel=\"preload\" href=\"one.webp\" as=\"image\" type=\"image/webp\" fetchpriority=\"high\">";
    let second = "<link rel=\"preload\" href=\"two.webp\" as=\"image\" type=\"image/webp\" fetchpriority=\"high\">";
    assert!(rendered.contains(first));
    assert!(rendered.contains(second));
    let i1: usize = rendered.find(first).unwrap();
    let i2: usize = rendered.find(second).unwrap();
    assert!(i1 < i2);
    assert_eq!(rendered.matches(first).count(), 2);
}

#[test]
fn absent_image_omits_og_meta() {
    let rendered = DefaultHeadTemplate::new(Some(Head::new().title("t"))).render();
    assert!(!rendered.contains("og:image"));
}

#[test]
fn given_description_replaces_default_text() {
    let rendered = DefaultHeadTemplate::new(Some(Head::new().description("mine"))).render();
    assert!(rendered.contains("<meta name=\"description\" content=\"mine\">"));
    assert!(!rendered.contains("Train and deploy models"));
}

#[test]
fn not_found_renders_title() {
    let rendered = DefaultHeadTemplate::new(Some(Head::not_found())).render();
    assert!(rendered.contains("<title>404 - Not Found \u{2013} PostgresML</title>"));
}

#[test]
fn empty_title_starts_with_separator() {
    let rendered = DefaultHeadTemplate::new(Some(Head::new())).render();
    assert!(rendered.contains("<title> \u{2013} PostgresML</title>"));
}
