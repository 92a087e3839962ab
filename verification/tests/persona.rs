use triplet::Persona;

#[test]
fn persona_saluda_con_nombre_y_edad() {
    let p = Persona::new(String::from("Alice"), 30, String::from("Nueva York"));
    assert_eq!(p.saludar(), "Hola, mi nombre es Alice y tengo 30 años.");
    assert_eq!(p.nombre, "Alice");
    assert_eq!(p.ciudad, "Nueva York");
}

#[test]
fn persona_cumple_anos() {
    let mut p = Persona::new(String::from("Alice"), 30, String::from("Nueva York"));
    p.cumplir_anos();
    assert_eq!(p.edad, 31);
    assert_eq!(p.nombre, "Alice");
    assert_eq!(p.ciudad, "Nueva York");
    assert_eq!(p.saludar(), "Hola, mi nombre es Alice y tengo 31 años.");
}

#[test]
fn persona_saluda_con_toda_edad() {
    for (edad, texto) in [(0u32, "0"), (9, "9"), (10, "10"), (105, "105"), (u32::MAX, "4294967295")]
    {
        let p = Persona::new(String::from("Bo"), edad, String::new());
        assert_eq!(p.saludar(), format!("Hola, mi nombre es Bo y tengo {} años.", texto));
    }
}

#[test]
fn persona_se_despide() {
    let p = Persona::new(String::from("Alice"), 30, String::from("Nueva York"));
    assert_eq!(p.despedirse(), "Adiós de parte de Alice");
}
