use trenako::common::queries::converters::{ConversionErrors, ToOutputConverter};
use trenako::common::queries::single_result::{found_or_empty, single_result, QueryError};

pub struct Row(pub i32);

impl ToOutputConverter<String> for Row {
    fn to_output(self) -> Result<String, ConversionErrors> {
        if self.0 < 0 {
            Err(ConversionErrors::new())
        } else {
            Ok(format!("row {}", self.0))
        }
    }
}

#[test]
fn single_result_it_should_return_an_output_when_the_row_is_found() {
    let result = single_result(Some(Row(42)));
    assert_eq!("row 42", result.unwrap());
}

#[test]
fn single_result_it_should_return_an_empty_result_set_error_when_the_row_is_not_found() {
    let result = single_result::<Row, String>(None);
    assert!(matches!(result, Err(QueryError::EmptyResultSet)));
}

#[test]
fn single_result_it_should_return_a_conversion_error_when_the_row_is_invalid() {
    let result = single_result(Some(Row(-1)));
    assert!(matches!(result, Err(QueryError::ConversionError(_))));
}

#[test]
fn found_values_are_returned_and_missing_ones_are_an_empty_result_set() {
    assert_eq!(7, found_or_empty(Some(7)).unwrap());
    assert!(matches!(found_or_empty::<u8>(None), Err(QueryError::EmptyResultSet)));
}
