use gron::cli::{ArgColor, ArgInputType};
use gron::input::{InputType, InputTypeAutoError};
use gron::output::Color;

#[allow(non_snake_case)]
#[test]
fn test_ArgInputType_to_InputType() {
    assert_eq!(
        InputType::try_from(ArgInputType::Auto),
        Err(InputTypeAutoError)
    );

    assert_eq!(InputType::try_from(ArgInputType::Json), Ok(InputType::Json));
    assert_eq!(
        InputType::try_from(ArgInputType::Json5),
        Ok(InputType::Json5)
    );
    assert_eq!(InputType::try_from(ArgInputType::Toml), Ok(InputType::Toml));
    assert_eq!(InputType::try_from(ArgInputType::Yaml), Ok(InputType::Yaml));
}

#[test]
fn test_input_guess_by_extension() {
    assert_eq!(
        InputType::guess_by_extension("json"),
        Some(InputType::Json)
    );

    assert_eq!(
        InputType::guess_by_extension("json5"),
        Some(InputType::Json5)
    );

    assert_eq!(
        InputType::guess_by_extension("toml"),
        Some(InputType::Toml)
    );

    assert_eq!(
        InputType::guess_by_extension("yml"),
        Some(InputType::Yaml)
    );

    assert_eq!(
        InputType::guess_by_extension("yaml"),
        Some(InputType::Yaml)
    );

    assert_eq!(
        InputType::guess_by_extension("html"),
        None
    );
}

#[allow(non_snake_case)]
#[test]
fn test_ArgColor_to_Color() {
    assert_eq!(Color::from(ArgColor::Always), Color::Colored);
    assert_eq!(Color::from(ArgColor::Never), Color::Regular);
    // Depends on the situation.
    // assert_eq!(Color::from(ArgColor::Auto), Color::Colored);
}

#[test]
fn test_defaults() {
    assert_eq!(ArgInputType::default(), ArgInputType::Auto);
    assert_eq!(ArgColor::default(), ArgColor::Auto);
}
