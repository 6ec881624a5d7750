//! The register writer's configuration:
//!
//! ```yaml
//! service ModbusService:
//!     wait-started: 10 ms         # optional
//!     unit 01:
//!         address: 192.168.100.1:502
//!         x-function 06: 101
//!         y-function 06: 103
//! ```

use vstd::prelude::*;
use crate::conf::{
    find_key, find_keyword, key_index, keyword_index, read_wait_started, wait_started_spec, ConfEntry,
    ConfValue,
};
use crate::protocol::{FunctionCode, Register};
use crate::text::{decimal_spec, parse_decimal};
use crate::writer::{AxisRegister, WriterTarget};

verus! {

/// Why a register-writer configuration was refused.
#[derive(Debug, Clone, Copy, PartialEq, Eq, Structural)]
pub enum ConfError {
    MissingUnit,
    BadUnitNumber,
    MissingAddress,
    MissingXFunction,
    BadXFunction,
    MissingYFunction,
    BadYFunction,
}

/// The register writer's configuration.
#[derive(Debug)]
pub struct ModbusServiceConf {
    pub name: String,
    /// How long the next service waits for this one to start, in
    /// milliseconds.
    pub wait_started_ms: Option<u64>,
    pub unit: u8,
    pub addr: String,
    pub register_x: AxisRegister,
    pub register_y: AxisRegister,
}

/// The function code and register of the keyword entry `name <code>:
/// <register>`; the register keeps its low 16 bits.
pub open spec fn axis_spec(
    section: Seq<ConfEntry>,
    name: Seq<char>,
    missing: ConfError,
    bad: ConfError,
) -> Result<AxisRegister, ConfError> {
    match find_keyword(section, name) {
        None => Err(missing),
        Some((title, value)) => match (decimal_spec(title, 255), value) {
            (Some(code), ConfValue::Number(reg)) => Ok(
                AxisRegister { function: FunctionCode(code as u8), register: Register(reg as u16) },
            ),
            _ => Err(bad),
        },
    }
}

/// Unit id, address and the two axis registers that a configuration
/// describes, or the first thing wrong with it.
pub open spec fn modbus_conf_spec(es: Seq<ConfEntry>) -> Result<
    (u8, Seq<char>, AxisRegister, AxisRegister),
    ConfError,
> {
    match find_keyword(es, "unit"@) {
        None => Err(ConfError::MissingUnit),
        Some((title, value)) => match decimal_spec(title, 255) {
            None => Err(ConfError::BadUnitNumber),
            Some(unit) => match value {
                ConfValue::Section(sec) => match find_key(sec@, "address"@) {
                    Some(ConfValue::Text(addr)) => match axis_spec(
                        sec@,
                        "x-function"@,
                        ConfError::MissingXFunction,
                        ConfError::BadXFunction,
                    ) {
                        Err(e) => Err(e),
                        Ok(x) => match axis_spec(
                            sec@,
                            "y-function"@,
                            ConfError::MissingYFunction,
                            ConfError::BadYFunction,
                        ) {
                            Err(e) => Err(e),
                            Ok(y) => Ok((unit as u8, addr@, x, y)),
                        },
                    },
                    _ => Err(ConfError::MissingAddress),
                },
                _ => Err(ConfError::MissingAddress),
            },
        },
    }
}

fn read_axis(section: &Vec<ConfEntry>, name: &str, missing: ConfError, bad: ConfError) -> (r: Result<
    AxisRegister,
    ConfError,
>)
    ensures
        r == axis_spec(section@, name@, missing, bad),
{
    match keyword_index(section, name) {
        None => Err(missing),
        Some((i, title)) => {
            let code = parse_decimal(&title, 255);
            match (code, &section[i].value) {
                (Some(code), ConfValue::Number(reg)) => Ok(
                    AxisRegister {
                        function: FunctionCode(code as u8),
                        register: Register(*reg as u16),
                    },
                ),
                _ => Err(bad),
            }
        },
    }
}

impl ModbusServiceConf {
    /// Reads the configuration of a register writer named `name` from its
    /// section `conf`.
    pub fn new(name: String, conf: &Vec<ConfEntry>) -> (r: Result<ModbusServiceConf, ConfError>)
        ensures
            match modbus_conf_spec(conf@) {
                Ok((unit, addr, x, y)) => r matches Ok(c) && c.name == name && c.unit == unit
                    && c.addr@ == addr && c.register_x == x && c.register_y == y
                    && c.wait_started_ms == wait_started_spec(conf@),
                Err(e) => r == Err::<ModbusServiceConf, ConfError>(e),
            },
    {
        let wait_started_ms = read_wait_started(conf);
        let (i, title) = match keyword_index(conf, "unit") {
            None => return Err(ConfError::MissingUnit),
            Some(found) => found,
        };
        let unit = match parse_decimal(&title, 255) {
            None => return Err(ConfError::BadUnitNumber),
            Some(u) => u as u8,
        };
        let section = match &conf[i].value {
            ConfValue::Section(sec) => sec,
            _ => return Err(ConfError::MissingAddress),
        };
        let addr = match key_index(section, "address") {
            Some(j) => match &section[j].value {
                ConfValue::Text(a) => a.clone(),
                _ => return Err(ConfError::MissingAddress),
            },
            None => return Err(ConfError::MissingAddress),
        };
        let register_x = read_axis(
            section,
            "x-function",
            ConfError::MissingXFunction,
            ConfError::BadXFunction,
        )?;
        let register_y = read_axis(
            section,
            "y-function",
            ConfError::MissingYFunction,
            ConfError::BadYFunction,
        )?;
        Ok(ModbusServiceConf { name, wait_started_ms, unit, addr, register_x, register_y })
    }

    /// Where the writer stores the two axes.
    pub fn target(&self) -> (r: WriterTarget)
        ensures
            r == (WriterTarget {
                unit: self.unit,
                register_x: self.register_x,
                register_y: self.register_y,
            }),
    {
        WriterTarget { unit: self.unit, register_x: self.register_x, register_y: self.register_y }
    }
}

/// Camera unique identifier, used for the database and the folder name.
#[derive(Debug, Clone, Copy, PartialEq, Eq, Structural)]
pub struct CameraId(pub usize);

impl Default for CameraId {
    fn default() -> (r: Self)
        ensures
            r == CameraId(0),
    {
        CameraId(0)
    }
}

} // verus!
