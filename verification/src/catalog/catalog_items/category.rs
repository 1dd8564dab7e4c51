//! The catalog item and rolling stock categories, and the kinds of rolling stock within them that this
//! library knows.

use vstd::prelude::*;

verus! {

/// The category of a catalog item.
#[derive(Debug, Copy, Clone, PartialEq, Eq, Structural)]
pub enum Category {
    /// locomotives
    Locomotives,
    /// train sets
    TrainSets,
}

/// The category of a rolling stock.
#[derive(Debug, Copy, Clone, PartialEq, Eq, Structural)]
pub enum RollingStockCategory {
    /// an electric multiple unit
    ElectricMultipleUnit,
    /// a freight car
    FreightCar,
    /// a locomotive
    Locomotive,
    /// a passenger car
    PassengerCar,
    /// a railcar
    Railcar,
}

/// The kind of a car of an electric multiple unit.
#[derive(Debug, Copy, Clone, PartialEq, Eq, Structural)]
pub enum ElectricMultipleUnitType {
    /// a car with a driving cab
    DrivingCar,
    /// a car with the traction motors
    PowerCar,
}

/// The kind of a freight car.
#[derive(Debug, Copy, Clone, PartialEq, Eq, Structural)]
pub enum FreightCarType {
    /// a covered freight car
    CoveredFreightCars,
}

/// The kind of a locomotive.
#[derive(Debug, Copy, Clone, PartialEq, Eq, Structural)]
pub enum LocomotiveType {
    /// a diesel locomotive
    DieselLocomotive,
    /// an electric locomotive
    ElectricLocomotive,
}

/// The kind of a passenger car.
#[derive(Debug, Copy, Clone, PartialEq, Eq, Structural)]
pub enum PassengerCarType {
    /// an open coach
    OpenCoach,
}

/// The kind of a railcar.
#[derive(Debug, Copy, Clone, PartialEq, Eq, Structural)]
pub enum RailcarType {
    /// a railcar with its own traction
    PowerCar,
}

/// The travel class of a passenger car.
#[derive(Debug, Copy, Clone, PartialEq, Eq, Structural)]
pub enum ServiceLevel {
    /// first class
    FirstClass,
}

} // verus!
