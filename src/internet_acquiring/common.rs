//! Items shared by the internet acquiring requests.


use vstd::prelude::*;

verus! {

/// Represents the transportation details.
#[derive(Debug)]
pub struct DetailAddenda {
    pub airline: Option<String>,
    pub ticket_number: Option<String>,
    pub passenger_name: Option<String>,
    pub flight_number: Option<String>,
    pub origin_city: Option<String>,
    pub destination_city: Option<String>,
    pub departure_date: Option<u32>,
}

impl DetailAddenda {
    /// Constructs a new transportation details entity.
    pub fn new() -> (r: Self)
        ensures
            r.airline is None,
            r.ticket_number is None,
            r.passenger_name is None,
            r.flight_number is None,
            r.origin_city is None,
            r.destination_city is None,
            r.departure_date is None,
    {
        Self {
            airline: None,
            ticket_number: None,
            passenger_name: None,
            flight_number: None,
            origin_city: None,
            destination_city: None,
            departure_date: None,
        }
    }

    /// Sets an airline.
    pub fn airline(self, airline: String) -> (r: Self)
        ensures
            r.airline == Some(airline),
            r.ticket_number == self.ticket_number,
            r.passenger_name == self.passenger_name,
            r.flight_number == self.flight_number,
            r.origin_city == self.origin_city,
            r.destination_city == self.destination_city,
            r.departure_date == self.departure_date,
    {
        let mut r = self;
        r.airline = Some(airline);
        r
    }

    /// Sets a ticket number.
    pub fn ticket_number(self, ticket_number: String) -> (r: Self)
        ensures
            r.airline == self.airline,
            r.ticket_number == Some(ticket_number),
            r.passenger_name == self.passenger_name,
            r.flight_number == self.flight_number,
            r.origin_city == self.origin_city,
            r.destination_city == self.destination_city,
            r.departure_date == self.departure_date,
    {
        let mut r = self;
        r.ticket_number = Some(ticket_number);
        r
    }

    /// Sets a passenger name.
    pub fn passenger_name(self, passenger_name: String) -> (r: Self)
        ensures
            r.airline == self.airline,
            r.ticket_number == self.ticket_number,
            r.passenger_name == Some(passenger_name),
            r.flight_number == self.flight_number,
            r.origin_city == self.origin_city,
            r.destination_city == self.destination_city,
            r.departure_date == self.departure_date,
    {
        let mut r = self;
        r.passenger_name = Some(passenger_name);
        r
    }

    /// Sets a flight number.
    pub fn flight_number(self, flight_number: String) -> (r: Self)
        ensures
            r.airline == self.airline,
            r.ticket_number == self.ticket_number,
            r.passenger_name == self.passenger_name,
            r.flight_number == Some(flight_number),
            r.origin_city == self.origin_city,
            r.destination_city == self.destination_city,
            r.departure_date == self.departure_date,
    {
        let mut r = self;
        r.flight_number = Some(flight_number);
        r
    }

    /// Sets a departure city.
    pub fn origin_city(self, origin_city: String) -> (r: Self)
        ensures
            r.airline == self.airline,
            r.ticket_number == self.ticket_number,
            r.passenger_name == self.passenger_name,
            r.flight_number == self.flight_number,
            r.origin_city == Some(origin_city),
            r.destination_city == self.destination_city,
            r.departure_date == self.departure_date,
    {
        let mut r = self;
        r.origin_city = Some(origin_city);
        r
    }

    /// Sets a destination city.
    pub fn destination_city(self, destination_city: String) -> (r: Self)
        ensures
            r.airline == self.airline,
            r.ticket_number == self.ticket_number,
            r.passenger_name == self.passenger_name,
            r.flight_number == self.flight_number,
            r.origin_city == self.origin_city,
            r.destination_city == Some(destination_city),
            r.departure_date == self.departure_date,
    {
        let mut r = self;
        r.destination_city = Some(destination_city);
        r
    }

    /// Sets a departure date. The format is YYMMDD.
    pub fn departure_date(self, departure_date: u32) -> (r: Self)
        ensures
            r.airline == self.airline,
            r.ticket_number == self.ticket_number,
            r.passenger_name == self.passenger_name,
            r.flight_number == self.flight_number,
            r.origin_city == self.origin_city,
            r.destination_city == self.destination_city,
            r.departure_date == Some(departure_date),
    {
        let mut r = self;
        r.departure_date = Some(departure_date);
        r
    }
}

/// Represents Electronic Commerce Indicator.
#[derive(Clone, Copy, Debug, PartialEq, Eq, Structural)]
pub enum ElectronicCommerceIndicator {
    MasterCardAuthenticated,
    MasterCardNotAuthenticated,
    VisaAuthenticated,
    VisaNotAuthenticated,
}

}
