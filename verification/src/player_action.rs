//! The player decision interface: the data a player's control code
//! receives each tick, the action it must return, and the structured
//! errors a malformed return value surfaces as.
//!
//! The hosting of the foreign control code is not part of this library;
//! the driver extracts the raw fields of a returned record and hands them
//! to [`PlayerAction::validate`], which applies the range rules.

use crate::fixed::{Vec2, COORD_LIMIT, PI_URAD};
use vstd::prelude::*;

verus! {

/// What one robot's control code sees for one tick: plain 2D positions in
/// milli-units, no velocities.
#[derive(Debug, Clone, Copy, PartialEq, Eq, Structural)]
pub struct PlayerInformation {
    pub my_position: Vec2,
    pub friend_position: Vec2,
    pub enemy1_position: Vec2,
    pub enemy2_position: Vec2,
    pub ball_position: Vec2,
}

/// A validated decision of one robot for one tick: a target position in
/// milli-units, a drive power, and a target orientation in microradians
/// within `[-pi, pi]`.
#[derive(Debug, Clone, Copy, PartialEq, Eq, Structural)]
pub struct PlayerAction {
    pub target_position: Vec2,
    pub power: u8,
    pub target_orientation: i64,
}

/// Why a path given at match configuration could not be loaded as player
/// control code. Configuration-time only; never occurs mid-match.
#[derive(Debug, Clone)]
pub enum CodeValidationError {
    Empty,
    DoesNotExists,
    IsNotAFile,
    CannotReadFile(String),
    ErrorOnLoadingCode(String),
    TeamNameIsMissing,
    TeamNameIncorrect(String),
    UpdateFunctionIsMissing,
    UpdateFunctionIncorrect(String),
}

/// Why the value a player's control code returned for one tick could not
/// be used as a `PlayerAction`. Recovered locally: the robot receives no
/// actuation that tick.
#[derive(Debug, Clone)]
pub enum CodeReturnValueError {
    /// The foreign code raised an exception.
    PlayerCodeException { code_name: String, err: String },
    /// The returned value was not a record/dictionary.
    NoDict { code_name: String, err: String, value_returned: String },
    /// A field held a value of the wrong type or out of range.
    InvalidType {
        code_name: String,
        field_name: String,
        invalid_type_hint: String,
        err: String,
        value_returned: String,
    },
    /// A required field was absent from the returned record.
    MissingField { code_name: String, missing_attribute_name: String, value_returned: String },
    /// Reading a field failed for another reason.
    Error { code_name: String, err: String, value_returned: String },
}

/// The range rules a raw decision record must meet: the target
/// orientation lies in `[-pi, pi]` microradians and the target position
/// within the coordinate range of the model.
pub open spec fn action_fields_valid(target_position: Vec2, target_orientation: i64) -> bool {
    &&& -PI_URAD <= target_orientation <= PI_URAD
    &&& -COORD_LIMIT <= target_position.x <= COORD_LIMIT
    &&& -COORD_LIMIT <= target_position.y <= COORD_LIMIT
}

/// The module name under which player code from a file is loaded: a
/// `.py` suffix is stripped; any other file name has each `.` replaced
/// by `_`.
pub open spec fn module_name_spec(name: Seq<char>) -> Seq<char> {
    if name.len() >= 3 && name.subrange(name.len() - 3, name.len() as int) == seq!['.', 'p', 'y'] {
        name.subrange(0, name.len() - 3)
    } else {
        name.map_values(|c: char| if c == '.' { '_' } else { c })
    }
}

/// Derive the module name of a player-code file from its file name,
/// given as its characters.
pub fn module_name_of(name: &Vec<char>) -> (r: Vec<char>)
    ensures
        r@ == module_name_spec(name@),
{
    let n: usize = name.len();
    if n >= 3 && name[n - 3] == '.' && name[n - 2] == 'p' && name[n - 1] == 'y' {
        proof {
            assert(name@.subrange(n - 3, n as int) =~= seq!['.', 'p', 'y']);
        }
        let mut stem: Vec<char> = Vec::new();
        let mut i: usize = 0;
        while i < n - 3
            invariant
                n == name@.len(),
                n >= 3,
                i <= n - 3,
                stem@ == name@.subrange(0, i as int),
            decreases n - 3 - i,
        {
            stem.push(name[i]);
            proof {
                assert(stem@ =~= name@.subrange(0, i + 1 as int));
            }
            i = i + 1;
        }
        stem
    } else {
        proof {
            if n >= 3 {
                assert(name@.subrange(n - 3, n as int) != seq!['.', 'p', 'y']) by {
                    if name@.subrange(n - 3, n as int) == seq!['.', 'p', 'y'] {
                        assert(name@.subrange(n - 3, n as int)[0] == name@[n - 3]);
                        assert(name@.subrange(n - 3, n as int)[1] == name@[n - 2]);
                        assert(name@.subrange(n - 3, n as int)[2] == name@[n - 1]);
                    }
                }
            }
        }
        let mut replaced: Vec<char> = Vec::new();
        let mut i: usize = 0;
        while i < n
            invariant
                n == name@.len(),
                i <= n,
                replaced@ == name@.subrange(0, i as int).map_values(
                    |c: char| if c == '.' { '_' } else { c },
                ),
            decreases n - i,
        {
            let c: char = name[i];
            if c == '.' {
                replaced.push('_');
            } else {
                replaced.push(c);
            }
            proof {
                assert(replaced@ =~= name@.subrange(0, i + 1 as int).map_values(
                    |c: char| if c == '.' { '_' } else { c },
                ));
            }
            i = i + 1;
        }
        proof {
            assert(name@.subrange(0, n as int) =~= name@);
        }
        replaced
    }
}

impl PlayerAction {
    /// Validate the raw fields of a decision record. Returns the action
    /// exactly when the fields are within range; otherwise names the
    /// offending field in an `InvalidType` error.
    pub fn validate(code_name: &str, target_position: Vec2, power: u8, target_orientation: i64) -> (r:
        Result<PlayerAction, CodeReturnValueError>)
        ensures
            r is Ok <==> action_fields_valid(target_position, target_orientation),
            r matches Ok(a) ==> a == (PlayerAction { target_position, power, target_orientation }),
            r matches Err(e) ==> e matches CodeReturnValueError::InvalidType {
                code_name: c,
                field_name: f,
                ..
            } && c@ == code_name@ && (f@ == "target_orientation"@ || f@ == "target_position"@),
            r matches Err(e) ==> (e matches CodeReturnValueError::InvalidType { field_name: f, .. }
                && (f@ == "target_orientation"@ <==> !(-PI_URAD <= target_orientation
                <= PI_URAD))),
    {
        proof {
            reveal_strlit("target_orientation");
            reveal_strlit("target_position");
            assert("target_orientation"@.len() == 18);
            assert("target_position"@.len() == 15);
            assert("target_orientation"@ != "target_position"@);
        }
        if !(-PI_URAD <= target_orientation && target_orientation <= PI_URAD) {
            Err(
                CodeReturnValueError::InvalidType {
                    code_name: code_name.to_owned(),
                    field_name: "target_orientation".to_owned(),
                    invalid_type_hint: "an angle in [-pi, pi] microradians".to_owned(),
                    err: "target orientation out of range".to_owned(),
                    value_returned: "target_orientation".to_owned(),
                },
            )
        } else if !(-COORD_LIMIT <= target_position.x && target_position.x <= COORD_LIMIT
            && -COORD_LIMIT <= target_position.y && target_position.y <= COORD_LIMIT) {
            Err(
                CodeReturnValueError::InvalidType {
                    code_name: code_name.to_owned(),
                    field_name: "target_position".to_owned(),
                    invalid_type_hint: "a pair of coordinates within the model range".to_owned(),
                    err: "target position out of range".to_owned(),
                    value_returned: "target_position".to_owned(),
                },
            )
        } else {
            Ok(PlayerAction { target_position, power, target_orientation })
        }
    }
}

} // verus!
