//! A person who can greet, grow a year older and say goodbye.
use vstd::prelude::*;
use vstd::string::*;
use crate::text::{decimal, write_decimal};

verus! {

/// A person with a name, an age in years and a city.
#[derive(Debug, PartialEq, Eq)]
pub struct Persona {
    pub nombre: String,
    pub edad: u32,
    pub ciudad: String,
}

/// The greeting of a person called `nombre` who is `edad` years old.
pub open spec fn saludo(nombre: Seq<char>, edad: u32) -> Seq<char> {
    "Hola, mi nombre es "@ + nombre + " y tengo "@ + decimal(edad as nat) + " años."@
}

/// The farewell of a person called `nombre`.
pub open spec fn despedida(nombre: Seq<char>) -> Seq<char> {
    "Adiós de parte de "@ + nombre
}

impl Clone for Persona {
    fn clone(&self) -> (copy: Self)
        ensures
            copy.nombre@ == self.nombre@,
            copy.edad == self.edad,
            copy.ciudad@ == self.ciudad@,
    {
        Persona { nombre: self.nombre.clone(), edad: self.edad, ciudad: self.ciudad.clone() }
    }
}

impl Persona {
    /// The person with the given name, age and city.
    pub fn new(nombre: String, edad: u32, ciudad: String) -> (persona: Self)
        ensures
            persona.nombre == nombre,
            persona.edad == edad,
            persona.ciudad == ciudad,
    {
        Persona { nombre, edad, ciudad }
    }

    /// The greeting of this person: name and age in a sentence.
    pub fn saludar(&self) -> (texto: String)
        ensures
            texto@ == saludo(self.nombre@, self.edad),
    {
        let mut texto = String::from_str("Hola, mi nombre es ");
        texto.append(self.nombre.as_str());
        texto.append(" y tengo ");
        write_decimal(&mut texto, self.edad);
        texto.append(" años.");
        texto
    }

    /// Makes this person one year older. The name and the city stay.
    pub fn cumplir_anos(&mut self)
        requires
            old(self).edad < u32::MAX,
        ensures
            final(self).edad == old(self).edad + 1,
            final(self).nombre == old(self).nombre,
            final(self).ciudad == old(self).ciudad,
    {
        self.edad += 1;
    }

    /// The farewell of this person, who is given up with it.
    pub fn despedirse(self) -> (texto: String)
        ensures
            texto@ == despedida(self.nombre@),
    {
        let mut texto = String::from_str("Adiós de parte de ");
        texto.append(self.nombre.as_str());
        texto
    }
}

} // verus!
