use usereport::cli::OutputType;
use usereport::renderer::{
    create_renderer, date_param, inc, HbsRenderer, HelperError, JsonRenderer, Param, RendererChoice, TemplateSource,
};

#[test]
fn renderers_are_made() {
    assert_eq!(JsonRenderer::new(), JsonRenderer::default());
    let renderer = HbsRenderer::new("# {{context.hostname}}");
    assert_eq!(renderer.template(), "# {{context.hostname}}");
    assert_eq!(HbsRenderer::default().template(), "");
}

#[test]
fn renderer_for_each_output_type() {
    let path = "report.hbs".to_string();

    assert!(matches!(
        create_renderer(OutputType::Json, None),
        Some(RendererChoice::Json)
    ));
    assert!(matches!(
        create_renderer(OutputType::Json, Some(&path)),
        Some(RendererChoice::Json)
    ));
    assert!(matches!(
        create_renderer(OutputType::Html, None),
        Some(RendererChoice::Hbs {
            template: TemplateSource::BuiltinHtml,
        })
    ));
    assert!(matches!(
        create_renderer(OutputType::Markdown, Some(&path)),
        Some(RendererChoice::Hbs {
            template: TemplateSource::BuiltinMarkdown,
        })
    ));
    match create_renderer(OutputType::Hbs, Some(&path)) {
        Some(RendererChoice::Hbs {
            template: TemplateSource::File { path: chosen },
        }) => assert_eq!(chosen, path),
        _ => panic!("expected the template of the caller"),
    }
    assert!(create_renderer(OutputType::Hbs, None).is_none());
}

#[test]
fn inc_is_the_successor() {
    assert_eq!(inc(&Param::Integer { value: 0 }), Ok(1));
    assert_eq!(inc(&Param::Integer { value: 41 }), Ok(42));
    assert_eq!(inc(&Param::Integer { value: -1 }), Ok(0));
    assert_eq!(inc(&Param::Integer { value: i64::MIN }), Ok(i64::MIN + 1));
    assert_eq!(inc(&Param::Integer { value: i64::MAX - 1 }), Ok(i64::MAX));
}

#[test]
fn inc_refuses_what_it_cannot_count() {
    assert_eq!(inc(&Param::Missing), Err(HelperError::NoSuchParameter));
    assert_eq!(inc(&Param::Other), Err(HelperError::NotANumber));
    assert_eq!(
        inc(&Param::Text {
            text: "1".to_string(),
        }),
        Err(HelperError::NotANumber)
    );
    assert_eq!(inc(&Param::Integer { value: i64::MAX }), Err(HelperError::Overflow));
}

#[test]
fn date_param_wants_a_text() {
    let date = Param::Text {
        text: "2020-01-02T03:04:05+01:00".to_string(),
    };

    assert_eq!(date_param(&date), Ok("2020-01-02T03:04:05+01:00"));
    assert_eq!(date_param(&Param::Missing), Err(HelperError::NoSuchParameter));
    assert_eq!(date_param(&Param::Integer { value: 1 }), Err(HelperError::NotAString));
    assert_eq!(date_param(&Param::Other), Err(HelperError::NotAString));
}

#[test]
fn helper_error_messages() {
    assert_eq!(HelperError::NoSuchParameter.message(), "no such parameter");
    assert_eq!(HelperError::NotANumber.message(), "parameter is not a number");
    assert_eq!(HelperError::NotAString.message(), "parameter is not a string");
    assert_eq!(HelperError::Overflow.message(), "parameter has no successor");
}
